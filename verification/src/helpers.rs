//! Small helpers: text comparison, decimal rendering and request identifiers.

use std::time::Duration;
use std::time::SystemTime;
use std::time::UNIX_EPOCH;
use vstd::prelude::*;
use vstd::string::*;

verus! {

/// `std::time::SystemTime`, a reading of the system clock. Nothing is known
/// of what a value holds.
#[verifier::external_type_specification]
#[verifier::external_body]
pub struct ExSystemTime(SystemTime);

/// `SystemTime::now`: the current reading of the system clock. Nothing is
/// claimed of it.
#[verifier::external_body]
fn clock_now() -> (now: SystemTime) {
    SystemTime::now()
}

/// `SystemTime::duration_since` against `UNIX_EPOCH`: the time elapsed since
/// the epoch, or nothing where the clock reads earlier than the epoch.
/// Nothing is claimed of the duration.
#[verifier::external_body]
fn since_unix_epoch(now: &SystemTime) -> (elapsed: Option<Duration>) {
    match now.duration_since(UNIX_EPOCH) {
        Ok(elapsed) => Some(elapsed),
        Err(_) => None,
    }
}

/// `Duration::as_secs`: the whole seconds of a duration. Nothing is claimed
/// of the number.
pub assume_specification[ Duration::as_secs ](d: &Duration) -> (secs: u64);

/// `Duration::subsec_nanos`: the fractional part of a duration in
/// nanoseconds, which std documents to be below one second.
pub assume_specification[ Duration::subsec_nanos ](d: &Duration) -> (nanos: u32)
    ensures
        nanos < 1_000_000_000,
;

/// Whether two string slices hold the same characters.
pub fn same_text(a: &str, b: &str) -> (same: bool)
    ensures
        same == (a@ == b@),
{
    a.to_owned() == b.to_owned()
}

/// Milliseconds in `secs` whole seconds and `subsec_nanos` nanoseconds.
pub open spec fn millis_of(secs: u64, subsec_nanos: u32) -> int {
    secs * 1000 + subsec_nanos / 1_000_000
}

/// The milliseconds of a span given as whole seconds and nanoseconds, where
/// they fit in 64 bits.
pub fn millis_from(secs: u64, subsec_nanos: u32) -> (ms: Option<u64>)
    ensures
        ms is Some <==> millis_of(secs, subsec_nanos) <= u64::MAX,
        ms matches Some(m) ==> m == millis_of(secs, subsec_nanos),
{
    let fraction: u64 = (subsec_nanos / 1_000_000) as u64;
    match secs.checked_mul(1000) {
        Some(whole) => whole.checked_add(fraction),
        None => None,
    }
}

/// A request identifier: the milliseconds since the epoch on the system
/// clock. There is none where the clock reads earlier than the epoch or the
/// count does not fit in 64 bits.
///
/// The result is a reading of the clock, so nothing is stated of it here:
/// any number may come back, or none. What is made of a reading is stated by
/// `millis_from`, which this function calls on the seconds and nanoseconds
/// that the clock gave.
pub fn get_uid() -> (uid: Option<u64>) {
    let now = clock_now();
    match since_unix_epoch(&now) {
        Some(elapsed) => {
            let secs: u64 = elapsed.as_secs();
            let nanos: u32 = elapsed.subsec_nanos();
            millis_from(secs, nanos)
        },
        None => None,
    }
}

/// The character of a decimal digit.
pub open spec fn digit_char(d: nat) -> char {
    if d == 0 {
        '0'
    } else if d == 1 {
        '1'
    } else if d == 2 {
        '2'
    } else if d == 3 {
        '3'
    } else if d == 4 {
        '4'
    } else if d == 5 {
        '5'
    } else if d == 6 {
        '6'
    } else if d == 7 {
        '7'
    } else if d == 8 {
        '8'
    } else {
        '9'
    }
}

/// The decimal numeral of `n`, without sign or leading zeros.
pub open spec fn decimal(n: nat) -> Seq<char>
    decreases n,
{
    if n < 10 {
        seq![digit_char(n)]
    } else {
        decimal(n / 10).push(digit_char(n % 10))
    }
}

fn digit_text(d: u64) -> (text: &'static str)
    requires
        d < 10,
    ensures
        text@ == seq![digit_char(d as nat)],
{
    proof {
        reveal_strlit("0");
        reveal_strlit("1");
        reveal_strlit("2");
        reveal_strlit("3");
        reveal_strlit("4");
        reveal_strlit("5");
        reveal_strlit("6");
        reveal_strlit("7");
        reveal_strlit("8");
        reveal_strlit("9");
    }
    let text = if d == 0 {
        "0"
    } else if d == 1 {
        "1"
    } else if d == 2 {
        "2"
    } else if d == 3 {
        "3"
    } else if d == 4 {
        "4"
    } else if d == 5 {
        "5"
    } else if d == 6 {
        "6"
    } else if d == 7 {
        "7"
    } else if d == 8 {
        "8"
    } else {
        "9"
    };
    assert(text@ =~= seq![digit_char(d as nat)]);
    text
}

/// Renders `n` as a decimal numeral.
pub fn decimal_text(n: u64) -> (text: String)
    ensures
        text@ == decimal(n as nat),
    decreases n,
{
    if n < 10 {
        String::from_str(digit_text(n))
    } else {
        let mut text = decimal_text(n / 10);
        text.append(digit_text(n % 10));
        assert(text@ =~= decimal(n as nat));
        text
    }
}

/// What a process does when it is interrupted.
#[derive(Debug, Clone, Copy, PartialEq, Eq, Structural)]
pub enum Interrupt {
    /// Raise the stop flag and let the process wind down.
    Stop,
    /// Exit at once.
    Quit,
}

/// Decides what an interrupt does: the first one asks the process to stop,
/// one that arrives while it is stopping makes it exit at once.
pub fn watch_stop_signal(stopping: bool) -> (action: Interrupt)
    ensures
        action == (if stopping {
            Interrupt::Quit
        } else {
            Interrupt::Stop
        }),
{
    if stopping {
        Interrupt::Quit
    } else {
        Interrupt::Stop
    }
}

} // verus!
