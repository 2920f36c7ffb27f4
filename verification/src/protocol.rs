//! The wire protocol: envelopes of text frames, control words and status
//! codes.
//!
//! An envelope is a multipart message. Routing frames and payload frames are
//! set apart by empty frames.

use vstd::prelude::*;
use vstd::string::*;

verus! {

/// Where the broker listens for clients.
pub const FRONTEND_ENDPOINT: &'static str = "tcp://127.0.0.1:6660";

/// Where the broker listens for workers, and where workers connect.
pub const BACKEND_ENDPOINT: &'static str = "tcp://127.0.0.1:6661";

/// Control word a worker sends once it can take a request.
pub const MSG_WORKER_IS_READY: &'static str = "READY";

/// Control word a worker sends when it leaves.
pub const MSG_WORKER_IS_GONE: &'static str = "GONE";

/// Control word that asks a worker to leave.
pub const MSG_WORKER_STOP: &'static str = "STOP";

/// The request was rendered.
pub const REP_200_SUCCESS: &'static str = "200";

/// The request was malformed.
pub const REP_400_BAD_REQUEST: &'static str = "400";

/// The renderer raised a warning, which counts as a failure.
pub const REP_502_BAD_GATEWAY: &'static str = "502";

/// No worker was available.
pub const REP_503_SERVICE_UNAVAILABLE: &'static str = "503";

/// The reply a worker sends for a client: the client's identity, an empty
/// frame, the status code, an empty frame and the content.
pub open spec fn reply_envelope(client: Seq<char>, code: Seq<char>, content: Seq<char>) -> Seq<
    Seq<char>,
> {
    seq![client, Seq::empty(), code, Seq::empty(), content]
}

/// Builds the reply envelope for a client.
pub fn client_reply(client_id: &str, reply_type: &str, reply_content: &str) -> (envelope: Vec<
    String,
>)
    ensures
        envelope.deep_view() == reply_envelope(client_id@, reply_type@, reply_content@),
{
    let mut envelope: Vec<String> = Vec::new();
    envelope.push(String::from_str(client_id));
    envelope.push(String::new());
    envelope.push(String::from_str(reply_type));
    envelope.push(String::new());
    envelope.push(String::from_str(reply_content));
    assert(envelope.deep_view() =~= reply_envelope(client_id@, reply_type@, reply_content@));
    envelope
}

/// Builds the reply for a request that was rendered.
pub fn client_reply_with_success(client_id: &str, content: &str) -> (envelope: Vec<String>)
    ensures
        envelope.deep_view() == reply_envelope(client_id@, REP_200_SUCCESS@, content@),
{
    client_reply(client_id, REP_200_SUCCESS, content)
}

/// Builds the reply for a request that failed with `err_code`.
pub fn client_reply_with_error(client_id: &str, err_code: &str, err_msg: &str) -> (envelope: Vec<
    String,
>)
    ensures
        envelope.deep_view() == reply_envelope(client_id@, err_code@, err_msg@),
{
    client_reply(client_id, err_code, err_msg)
}

/// The client and the request body of a dispatch as the worker receives it:
/// three frames, the second of them empty. Any other shape is a protocol
/// violation.
pub open spec fn client_request(frames: Seq<Seq<char>>) -> Option<(Seq<char>, Seq<char>)> {
    if frames.len() == 3 && frames[1].len() == 0 {
        Some((frames[0], frames[2]))
    } else {
        None
    }
}

/// Reads the client's identity and the request body from a dispatch.
pub fn read_client_request(frames: &Vec<String>) -> (r: Option<(String, String)>)
    ensures
        r is Some <==> client_request(frames.deep_view()) is Some,
        r matches Some((client, body)) ==> Some((client@, body@)) == client_request(
            frames.deep_view(),
        ),
{
    if frames.len() == 3 && frames[1].as_str().is_empty() {
        Some((frames[0].clone(), frames[2].clone()))
    } else {
        None
    }
}

/// The envelope that carries a request to a worker: the worker's identity,
/// an empty frame, the client's identity, an empty frame and the request.
pub open spec fn dispatch_envelope(worker: Seq<char>, client: Seq<char>, body: Seq<char>) -> Seq<
    Seq<char>,
> {
    seq![worker, Seq::empty(), client, Seq::empty(), body]
}

/// Builds the envelope that carries a request to a worker.
pub fn dispatch(worker_id: &str, client_id: &str, request: &str) -> (envelope: Vec<String>)
    ensures
        envelope.deep_view() == dispatch_envelope(worker_id@, client_id@, request@),
{
    let mut envelope: Vec<String> = Vec::new();
    envelope.push(String::from_str(worker_id));
    envelope.push(String::new());
    envelope.push(String::from_str(client_id));
    envelope.push(String::new());
    envelope.push(String::from_str(request));
    assert(envelope.deep_view() =~= dispatch_envelope(worker_id@, client_id@, request@));
    envelope
}

/// The envelope that carries a reply to a client: the client's identity, an
/// empty frame, the identity of the worker that served it, an empty frame,
/// the status code, an empty frame and the content.
pub open spec fn response_envelope(
    client: Seq<char>,
    worker: Seq<char>,
    code: Seq<char>,
    content: Seq<char>,
) -> Seq<Seq<char>> {
    seq![client, Seq::empty(), worker, Seq::empty(), code, Seq::empty(), content]
}

/// Builds the envelope that carries a reply to a client.
pub fn response(client_id: &str, worker_id: &str, reply: &str, content: &str) -> (envelope: Vec<
    String,
>)
    ensures
        envelope.deep_view() == response_envelope(client_id@, worker_id@, reply@, content@),
{
    let mut envelope: Vec<String> = Vec::new();
    envelope.push(String::from_str(client_id));
    envelope.push(String::new());
    envelope.push(String::from_str(worker_id));
    envelope.push(String::new());
    envelope.push(String::from_str(reply));
    envelope.push(String::new());
    envelope.push(String::from_str(content));
    assert(envelope.deep_view() =~= response_envelope(client_id@, worker_id@, reply@, content@));
    envelope
}

/// Whether every frame of a received envelope is text.
pub open spec fn all_text(parts: Seq<Option<String>>) -> bool {
    forall|i: int| 0 <= i < parts.len() ==> (#[trigger] parts[i]) is Some
}

/// The frames of a received envelope, each given as its text where it is
/// text: the texts in their order where every frame is text, and no frame at
/// all where one is not, so that the envelope counts as malformed.
pub open spec fn text_frames(parts: Seq<Option<String>>) -> Seq<Seq<char>> {
    if all_text(parts) {
        Seq::new(parts.len(), |i: int| parts[i]->0@)
    } else {
        Seq::empty()
    }
}

/// Reads the frames of a received envelope.
pub fn read_frames(parts: &Vec<Option<String>>) -> (frames: Vec<String>)
    ensures
        frames.deep_view() == text_frames(parts@),
{
    let mut frames: Vec<String> = Vec::new();
    let mut i: usize = 0;
    while i < parts.len()
        invariant
            i <= parts.len(),
            frames@.len() == i,
            forall|j: int| 0 <= j < i ==> (#[trigger] parts@[j]) is Some && frames@[j]@ == parts@[j]->0@,
        decreases parts.len() - i,
    {
        match &parts[i] {
            Some(text) => {
                frames.push(text.clone());
            },
            None => {
                let none: Vec<String> = Vec::new();
                assert(!all_text(parts@));
                assert(none.deep_view() =~= text_frames(parts@));
                return none;
            },
        }
        i += 1;
    }
    assert(all_text(parts@));
    assert(frames.deep_view() =~= text_frames(parts@));
    frames
}

} // verus!
