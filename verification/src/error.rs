//! The error value shared by the broker and the worker.

use vstd::prelude::*;
use vstd::string::*;

verus! {

/// An error with a description and, where one is known, the description of
/// the error that caused it.
#[derive(Debug)]
pub struct AnyError {
    pub details: String,
    pub parent: Option<String>,
}

/// What `AnyError::to_text` renders: the details, then the cause after `": "`.
pub open spec fn error_text(details: Seq<char>, parent: Option<Seq<char>>) -> Seq<char> {
    match parent {
        Some(cause) => details + ": "@ + cause,
        None => details,
    }
}

impl AnyError {
    /// The cause of this error as a sequence of characters, if it has one.
    pub open spec fn parent_view(&self) -> Option<Seq<char>> {
        match self.parent {
            Some(cause) => Some(cause@),
            None => None,
        }
    }

    /// An error described by `details`, caused by `reason` where there is
    /// one.
    pub fn new(details: &str, reason: Option<String>) -> (e: Self)
        ensures
            e.details@ == details@,
            e.parent == reason,
    {
        AnyError { details: String::from_str(details), parent: reason }
    }

    /// An error described by `details`, with no known cause.
    pub fn without_parent(details: &str) -> (e: Self)
        ensures
            e.details@ == details@,
            e.parent.is_none(),
    {
        AnyError::new(details, None)
    }

    /// The error as one line of text.
    pub fn to_text(&self) -> (text: String)
        ensures
            text@ == error_text(self.details@, self.parent_view()),
    {
        let mut text = self.details.clone();
        match &self.parent {
            Some(cause) => {
                text.append(": ");
                text.append(cause.as_str());
            },
            None => {},
        }
        text
    }
}

/// Fails with `message`, caused by `reason`.
pub fn error<T>(message: &str, reason: String) -> (r: Result<T, AnyError>)
    ensures
        r is Err,
        r->Err_0.details@ == message@,
        r->Err_0.parent == Some(reason),
{
    Err(AnyError::new(message, Some(reason)))
}

/// Fails with `message` and no cause.
pub fn error_without_parent<T>(message: &str) -> (r: Result<T, AnyError>)
    ensures
        r is Err,
        r->Err_0.details@ == message@,
        r->Err_0.parent.is_none(),
{
    Err(AnyError::without_parent(message))
}

} // verus!
