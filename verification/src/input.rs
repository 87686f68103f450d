//! What the service reads off a request besides its body: the kind of
//! stream that the client accepts, and the answer to a body that was
//! refused.

use vstd::prelude::*;
use vstd::string::*;
use vstd::utf8::encode_utf8;

verus! {

/// The kind of stream that answers a request. Server-sent events are the
/// default.
#[derive(Debug, Clone, Copy, PartialEq, Eq, Structural)]
pub enum StreamType {
    /// Server-sent events.
    Sse,
    /// JSON lines, or newline-delimited JSON.
    Jsonl,
}

impl Default for StreamType {
    fn default() -> (t: Self)
        ensures
            t == StreamType::Sse,
    {
        StreamType::Sse
    }
}

/// The media types that ask for JSON lines.
pub open spec fn asks_for_jsonl(accept: Seq<u8>) -> bool {
    accept == encode_utf8("application/json"@) || accept == encode_utf8("application/jsonl"@)
        || accept == encode_utf8("application/json-lines"@) || accept == encode_utf8(
        "application/x-ndjson"@,
    )
}

/// The stream type for the value of an `Accept` header.
pub open spec fn stream_type_for(accept: Option<Seq<u8>>) -> StreamType {
    match accept {
        Some(value) => if asks_for_jsonl(value) {
            StreamType::Jsonl
        } else {
            StreamType::Sse
        },
        None => StreamType::Sse,
    }
}

fn is_media_type(accept: &Vec<u8>, media_type: &str) -> (b: bool)
    ensures
        b == (accept@ == encode_utf8(media_type@)),
{
    let want = media_type.as_bytes();
    if want.len() != accept.len() {
        return false;
    }
    let mut i: usize = 0;
    while i < accept.len()
        invariant
            i <= accept.len(),
            want@.len() == accept@.len(),
            want@ == encode_utf8(media_type@),
            forall|j: int| 0 <= j < i ==> want@[j] == accept@[j],
        decreases accept.len() - i,
    {
        if want[i] != accept[i] {
            return false;
        }
        i += 1;
    }
    assert(accept@ =~= want@);
    true
}

impl StreamType {
    /// Determines the stream type from the value of the `Accept` header:
    /// JSON lines for a JSON media type, server-sent events otherwise and
    /// when the header is absent.
    pub fn from_accept(accept: Option<&Vec<u8>>) -> (t: StreamType)
        ensures
            t == stream_type_for(
                match accept {
                    Some(v) => Some(v@),
                    None => None,
                },
            ),
    {
        match accept {
            Some(value) => {
                if is_media_type(value, "application/json") || is_media_type(
                    value,
                    "application/jsonl",
                ) || is_media_type(value, "application/json-lines") || is_media_type(
                    value,
                    "application/x-ndjson",
                ) {
                    StreamType::Jsonl
                } else {
                    StreamType::Sse
                }
            },
            None => StreamType::Sse,
        }
    }

    /// The content type of the stream.
    pub fn content_type(&self) -> (s: &'static str)
        ensures
            s@ == (match self {
                StreamType::Sse => "text/event-stream"@,
                StreamType::Jsonl => "application/jsonl"@,
            }),
    {
        match self {
            StreamType::Sse => "text/event-stream",
            StreamType::Jsonl => "application/jsonl",
        }
    }
}

/// The answer to a request whose body was refused.
#[derive(Debug, Clone, PartialEq, Eq)]
pub struct InputValidationError {
    pub message: String,
}

impl InputValidationError {
    /// The answer with the given message.
    pub fn new(message: String) -> (e: Self)
        ensures
            e.message == message,
    {
        InputValidationError { message }
    }
}

} // verus!
