//! The response decoders: one status check shared by all, then the body read
//! as raw bytes, hex, JSON text or plain text, each with a variant that turns
//! "not found" into an absent value.
use crate::error::Error;
use crate::hex::{bytes_from_hex, hex_decode};
use vstd::prelude::*;

verus! {

/// The text that bytes spell as UTF-8, if they are valid UTF-8.
pub uninterp spec fn utf8_text(b: Seq<u8>) -> Option<Seq<char>>;

/// Relies on `std::str::from_utf8`: the text exactly when the bytes are valid
/// UTF-8.
#[verifier::external_body]
pub(crate) fn text_of(b: &[u8]) -> (r: Option<String>)
    ensures
        match r {
            Some(t) => utf8_text(b@) == Some(t@),
            None => utf8_text(b@) is None,
        },
{
    std::str::from_utf8(b).ok().map(|s| s.to_string())
}

/// How a response body is read.
#[derive(Clone, Copy, Debug, PartialEq, Eq)]
pub enum Strategy {
    /// The raw bytes, for a consensus decode.
    Binary,
    /// Hex text, decoded to bytes for a consensus decode.
    Hex,
    /// Text, for a JSON decode.
    Json,
    /// Text, returned as it is.
    Text,
}

/// What a decoder hands on from a successful response.
#[derive(Clone, Debug, PartialEq, Eq)]
pub enum Payload {
    Bytes(Vec<u8>),
    Text(String),
}

/// The error that the shared status check raises on a failure status: the
/// status with the body as its message, or, where the body is not text, an
/// invalid response.
pub open spec fn is_status_error(status: u16, body: Seq<u8>, e: Error) -> bool {
    match utf8_text(body) {
        Some(t) => e matches Error::HttpResponse { status: s, message: m } && s == status && m@
            == t,
        None => e is InvalidResponse,
    }
}

/// The bytes that a byte strategy takes from a body, if it can. The text
/// strategies take no bytes.
pub open spec fn bytes_of(strategy: Strategy, body: Seq<u8>) -> Option<Seq<u8>> {
    match strategy {
        Strategy::Binary => Some(body),
        Strategy::Hex => match utf8_text(body) {
            Some(t) => hex_decode(t),
            None => None,
        },
        _ => None,
    }
}

/// The error with which a byte strategy fails to take bytes from a body: an
/// invalid response where the body is not text, a hex error where the text is
/// not hex.
pub open spec fn is_bytes_error(strategy: Strategy, body: Seq<u8>, e: Error) -> bool {
    match utf8_text(body) {
        None => e is InvalidResponse,
        Some(_) => e is HexToBytes,
    }
}

pub open spec fn is_byte_strategy(strategy: Strategy) -> bool {
    strategy is Binary || strategy is Hex
}

/// What a decoder yields for a body that passed the status check.
pub open spec fn payload_of(strategy: Strategy, body: Seq<u8>, r: Result<Payload, Error>) -> bool {
    if is_byte_strategy(strategy) {
        match bytes_of(strategy, body) {
            Some(b) => r matches Ok(Payload::Bytes(v)) && v@ == b,
            None => r matches Err(e) && is_bytes_error(strategy, body, e),
        }
    } else {
        match utf8_text(body) {
            Some(t) => r matches Ok(Payload::Text(s)) && s@ == t,
            None => r matches Err(Error::InvalidResponse),
        }
    }
}

/// What a decoder yields for a response.
pub open spec fn decodes_to(strategy: Strategy, status: u16, body: Seq<u8>, r: Result<Payload, Error>) -> bool {
    if status > 299 {
        r matches Err(e) && is_status_error(status, body, e)
    } else {
        payload_of(strategy, body, r)
    }
}

/// Whether the status check turns a response into "not found".
pub open spec fn is_not_found(status: u16, body: Seq<u8>) -> bool {
    status == 404 && utf8_text(body) is Some
}

/// What the optional variant of a decoder yields for a response.
pub open spec fn optionally_decodes_to(
    strategy: Strategy,
    status: u16,
    body: Seq<u8>,
    r: Result<Option<Payload>, Error>,
) -> bool {
    if is_not_found(status, body) {
        r matches Ok(None)
    } else {
        match r {
            Ok(Some(p)) => decodes_to(strategy, status, body, Ok(p)),
            Ok(None) => false,
            Err(e) => decodes_to(strategy, status, body, Err(e)),
        }
    }
}

/// The optional form of a result: a 404 failure becomes an absent value, any
/// other result passes through.
pub open spec fn absent_if_not_found<T>(r: Result<T, Error>) -> Result<Option<T>, Error> {
    match r {
        Ok(v) => Ok(Some(v)),
        Err(e) => if e matches Error::HttpResponse { status, .. } && status == 404 {
            Ok(None)
        } else {
            Err(e)
        },
    }
}

/// The check that every decoder makes first: a status above 299 fails.
pub fn check_status(status: u16, body: &[u8]) -> (r: Result<(), Error>)
    ensures
        status <= 299 ==> r is Ok,
        status > 299 ==> (r matches Err(e) && is_status_error(status, body@, e)),
{
    if status > 299 {
        match text_of(body) {
            Some(message) => Err(Error::HttpResponse { status, message }),
            None => Err(Error::InvalidResponse),
        }
    } else {
        Ok(())
    }
}

fn copy_bytes(b: &[u8]) -> (r: Vec<u8>)
    ensures
        r@ == b@,
{
    let mut r: Vec<u8> = Vec::with_capacity(b.len());
    let mut i: usize = 0;
    while i < b.len()
        invariant
            i <= b@.len(),
            r@ == b@.subrange(0, i as int),
        decreases b@.len() - i,
    {
        r.push(b[i]);
        i = i + 1;
        assert(r@ =~= b@.subrange(0, i as int));
    }
    assert(b@.subrange(0, b@.len() as int) =~= b@);
    r
}

/// Reads a response with the given strategy.
pub fn read_response(strategy: Strategy, status: u16, body: &[u8]) -> (r: Result<Payload, Error>)
    ensures
        decodes_to(strategy, status, body@, r),
{
    check_status(status, body)?;
    match strategy {
        Strategy::Binary => Ok(Payload::Bytes(copy_bytes(body))),
        Strategy::Hex => {
            let text = match text_of(body) {
                Some(t) => t,
                None => return Err(Error::InvalidResponse),
            };
            match bytes_from_hex(text.as_str()) {
                Ok(b) => Ok(Payload::Bytes(b)),
                Err(e) => Err(Error::HexToBytes(e)),
            }
        },
        Strategy::Json | Strategy::Text => match text_of(body) {
            Some(t) => Ok(Payload::Text(t)),
            None => Err(Error::InvalidResponse),
        },
    }
}

/// Turns a 404 failure into an absent value.
pub fn optional<T>(r: Result<T, Error>) -> (o: Result<Option<T>, Error>)
    ensures
        o == absent_if_not_found(r),
{
    match r {
        Ok(v) => Ok(Some(v)),
        Err(e) => {
            if let Error::HttpResponse { status, .. } = &e {
                if *status == 404 {
                    return Ok(None);
                }
            }
            Err(e)
        },
    }
}

/// Reads a response with the given strategy, a 404 giving an absent value.
pub fn read_optional_response(strategy: Strategy, status: u16, body: &[u8]) -> (r: Result<
    Option<Payload>,
    Error,
>)
    ensures
        optionally_decodes_to(strategy, status, body@, r),
{
    optional(read_response(strategy, status, body))
}

/// In every optional decoder a readable 404 response is an absent value, and
/// any other failure status (a 500, say) is an HTTP error that carries that
/// status and the body, never an absent value.
pub proof fn lemma_optional_decoders(strategy: Strategy, body: Seq<u8>, status: u16)
    requires
        utf8_text(body) is Some,
        status > 299,
        status != 404,
    ensures
        forall|r: Result<Option<Payload>, Error>|
            #[trigger] optionally_decodes_to(strategy, 404, body, r) <==> (r matches Ok(None)),
        forall|r: Result<Option<Payload>, Error>|
            #[trigger] optionally_decodes_to(strategy, status, body, r) ==> (r matches Err(
                Error::HttpResponse { status: s, message: m },
            ) && s == status && m@ == utf8_text(body)->0),
{
}

} // verus!
