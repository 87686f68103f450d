//! The API key check. Every request must carry the configured key in the
//! `X-Runner-Api-Key` header.

use vstd::prelude::*;
use vstd::string::*;
use vstd::utf8::encode_utf8;

verus! {

/// Header name for the API key.
pub const API_KEY_HEADER: &'static str = "X-Runner-Api-Key";

/// Proof that a request carried the valid API key.
#[derive(Debug, Clone, Copy, PartialEq, Eq, Structural)]
pub struct ApiKey;

/// Why a request carried no valid API key.
#[derive(Debug, Clone, Copy, PartialEq, Eq, Structural)]
pub enum ApiKeyError {
    /// The header is absent.
    Missing,
    /// The header is not text, or is not the configured key.
    Invalid,
}

impl ApiKeyError {
    /// The HTTP status that answers the request.
    pub fn status(&self) -> (code: u16)
        ensures
            code == 401,
    {
        401
    }

    /// The body that answers the request.
    pub fn body(&self) -> (s: &'static str)
        ensures
            s@ == "Unauthorized"@,
    {
        "Unauthorized"
    }
}

/// A byte that a header value may show as text: a visible ASCII character, a
/// space or a tab.
pub open spec fn is_header_text_byte(b: u8) -> bool {
    (32 <= b && b < 127) || b == 9
}

/// The header value can be read as text.
pub open spec fn is_header_text(value: Seq<u8>) -> bool {
    forall|i: int| 0 <= i < value.len() ==> is_header_text_byte(#[trigger] value[i])
}

/// What the check answers for a header value and the configured key.
pub open spec fn api_key_verdict(header: Option<Seq<u8>>, expected: Seq<char>) -> Result<
    ApiKey,
    ApiKeyError,
> {
    match header {
        None => Err(ApiKeyError::Missing),
        Some(value) => if is_header_text(value) && value == encode_utf8(expected) {
            Ok(ApiKey)
        } else {
            Err(ApiKeyError::Invalid)
        },
    }
}

/// Bytes of an optional header value.
pub open spec fn header_bytes(header: Option<&Vec<u8>>) -> Option<Seq<u8>> {
    match header {
        Some(v) => Some(v@),
        None => None,
    }
}

impl ApiKey {
    /// Checks the value of the API key header against the configured key.
    pub fn check(header: Option<&Vec<u8>>, expected: &str) -> (r: Result<ApiKey, ApiKeyError>)
        ensures
            r == api_key_verdict(header_bytes(header), expected@),
    {
        let value = match header {
            Some(v) => v,
            None => {
                return Err(ApiKeyError::Missing);
            },
        };
        let mut i: usize = 0;
        while i < value.len()
            invariant
                header_bytes(header) == Some(value@),
                i <= value.len(),
                forall|j: int| 0 <= j < i ==> is_header_text_byte(#[trigger] value@[j]),
            decreases value.len() - i,
        {
            let b = value[i];
            if !((32 <= b && b < 127) || b == 9) {
                assert(!is_header_text_byte(value@[i as int]));
                return Err(ApiKeyError::Invalid);
            }
            i += 1;
        }
        let key = expected.as_bytes();
        if key.len() != value.len() {
            return Err(ApiKeyError::Invalid);
        }
        let mut k: usize = 0;
        while k < value.len()
            invariant
                header_bytes(header) == Some(value@),
                k <= value.len(),
                key@.len() == value@.len(),
                key@ == encode_utf8(expected@),
                forall|j: int| 0 <= j < k ==> key@[j] == value@[j],
            decreases value.len() - k,
        {
            if key[k] != value[k] {
                return Err(ApiKeyError::Invalid);
            }
            k += 1;
        }
        assert(value@ =~= key@);
        Ok(ApiKey)
    }
}

} // verus!
