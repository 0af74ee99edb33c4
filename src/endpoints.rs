//! What each endpoint makes of its response: one decoder, then the typed
//! decode or the check that the endpoint adds.
use crate::chain::{
    MAX_DECODED_SIZE,
    block_from_bytes, block_hash_from_hex, header_from_bytes, is_block_encoding,
    is_hash_hex, is_header_encoding, is_merkle_block_encoding, is_transaction_encoding,
    merkle_block_from_bytes, transaction_from_bytes, transaction_to_bytes, txid_from_hex,
};
use crate::decode::{
    bytes_of, is_bytes_error, is_not_found, is_status_error, read_optional_response, read_response,
    utf8_text, Payload, Strategy,
};
use crate::error::Error;
use crate::hex::{hex_bytes, is_hex, lemma_hex_round_trip, lower_hex, to_lower_hex};
use bitcoin::block::Header;
use std::num::ParseIntError;
use bitcoin::{Block, BlockHash, MerkleBlock, Transaction, Txid};
use vstd::prelude::*;

verus! {

/// What a consensus decoder returns: the status error, the strategy's error,
/// a value where the bytes are an encoding of the type, or an encoding error.
pub open spec fn consensus_outcome<T>(
    strategy: Strategy,
    status: u16,
    body: Seq<u8>,
    is_encoding: spec_fn(Seq<u8>) -> bool,
    r: Result<T, Error>,
) -> bool {
    if status > 299 {
        r matches Err(e) && is_status_error(status, body, e)
    } else {
        match bytes_of(strategy, body) {
            None => r matches Err(e) && is_bytes_error(strategy, body, e),
            Some(b) => if is_encoding(b) {
                r is Ok
            } else {
                r matches Err(Error::BitcoinEncoding(_))
            },
        }
    }
}

/// The optional form of `consensus_outcome`: absent on a readable 404.
pub open spec fn optional_consensus_outcome<T>(
    strategy: Strategy,
    status: u16,
    body: Seq<u8>,
    is_encoding: spec_fn(Seq<u8>) -> bool,
    r: Result<Option<T>, Error>,
) -> bool {
    if is_not_found(status, body) {
        r matches Ok(None)
    } else {
        match r {
            Ok(Some(v)) => consensus_outcome(strategy, status, body, is_encoding, Ok::<T, Error>(v)),
            Ok(None) => false,
            Err(e) => consensus_outcome(strategy, status, body, is_encoding, Err::<T, Error>(e)),
        }
    }
}

/// What a text decoder followed by a parse returns: the status error, an
/// invalid response for a body that is not text, the parsed value where the
/// text parses, or an error that `is_parse_error` accepts.
pub open spec fn parsed_outcome<T>(
    status: u16,
    body: Seq<u8>,
    parses: spec_fn(Seq<char>) -> bool,
    is_parse_error: spec_fn(Error) -> bool,
    r: Result<T, Error>,
) -> bool {
    if status > 299 {
        r matches Err(e) && is_status_error(status, body, e)
    } else {
        match utf8_text(body) {
            None => r matches Err(Error::InvalidResponse),
            Some(t) => if parses(t) {
                r is Ok
            } else {
                r matches Err(e) && is_parse_error(e)
            },
        }
    }
}

/// A raw transaction, absent where the server does not know it.
pub fn transaction_from_response(status: u16, body: &[u8]) -> (r: Result<Option<Transaction>, Error>)
    ensures
        optional_consensus_outcome(
            Strategy::Binary,
            status,
            body@,
            |b: Seq<u8>| is_transaction_encoding(b),
            r,
        ),
{
    match read_optional_response(Strategy::Binary, status, body)? {
        None => Ok(None),
        Some(Payload::Bytes(b)) => match transaction_from_bytes(b.as_slice()) {
            Ok(tx) => Ok(Some(tx)),
            Err(e) => Err(Error::BitcoinEncoding(e)),
        },
        Some(Payload::Text(_)) => Err(Error::InvalidResponse),
    }
}

/// A raw block, absent where the server does not know it.
pub fn block_from_response(status: u16, body: &[u8]) -> (r: Result<Option<Block>, Error>)
    ensures
        optional_consensus_outcome(
            Strategy::Binary,
            status,
            body@,
            |b: Seq<u8>| is_block_encoding(b),
            r,
        ),
{
    match read_optional_response(Strategy::Binary, status, body)? {
        None => Ok(None),
        Some(Payload::Bytes(b)) => match block_from_bytes(b.as_slice()) {
            Ok(block) => Ok(Some(block)),
            Err(e) => Err(Error::BitcoinEncoding(e)),
        },
        Some(Payload::Text(_)) => Err(Error::InvalidResponse),
    }
}

/// A block header sent as hex.
pub fn header_from_response(status: u16, body: &[u8]) -> (r: Result<Header, Error>)
    ensures
        consensus_outcome(Strategy::Hex, status, body@, |b: Seq<u8>| is_header_encoding(b), r),
{
    match read_response(Strategy::Hex, status, body)? {
        Payload::Bytes(b) => match header_from_bytes(b.as_slice()) {
            Ok(header) => Ok(header),
            Err(e) => Err(Error::BitcoinEncoding(e)),
        },
        Payload::Text(_) => Err(Error::InvalidResponse),
    }
}

/// A merkle block sent as hex, absent where the server does not know the
/// transaction.
pub fn merkle_block_from_response(status: u16, body: &[u8]) -> (r: Result<Option<MerkleBlock>, Error>)
    ensures
        optional_consensus_outcome(
            Strategy::Hex,
            status,
            body@,
            |b: Seq<u8>| is_merkle_block_encoding(b),
            r,
        ),
{
    match read_optional_response(Strategy::Hex, status, body)? {
        None => Ok(None),
        Some(Payload::Bytes(b)) => match merkle_block_from_bytes(b.as_slice()) {
            Ok(mb) => Ok(Some(mb)),
            Err(e) => Err(Error::BitcoinEncoding(e)),
        },
        Some(Payload::Text(_)) => Err(Error::InvalidResponse),
    }
}

/// The optional form of `parsed_outcome`: absent on a readable 404.
pub open spec fn optional_parsed_outcome<T>(
    status: u16,
    body: Seq<u8>,
    parses: spec_fn(Seq<char>) -> bool,
    is_parse_error: spec_fn(Error) -> bool,
    r: Result<Option<T>, Error>,
) -> bool {
    if is_not_found(status, body) {
        r matches Ok(None)
    } else {
        match r {
            Ok(Some(v)) => parsed_outcome(status, body, parses, is_parse_error, Ok::<T, Error>(v)),
            Ok(None) => false,
            Err(e) => parsed_outcome(status, body, parses, is_parse_error, Err::<T, Error>(e)),
        }
    }
}

pub open spec fn is_decimal_digit(c: char) -> bool {
    '0' <= c && c <= '9'
}

/// The number that decimal digits spell.
pub open spec fn digits_value(s: Seq<char>) -> int
    decreases s.len(),
{
    if s.len() == 0 {
        0
    } else {
        10 * digits_value(s.drop_last()) + (s.last() as int - '0' as int)
    }
}

/// An unsigned number's text without its optional leading `+`.
pub open spec fn unsigned_digits(s: Seq<char>) -> Seq<char> {
    if s.len() > 0 && s[0] == '+' {
        s.drop_first()
    } else {
        s
    }
}

/// A `u32` written in decimal: an optional `+`, then at least one digit, and
/// nothing else; none where the text is not that or the number is too large.
pub open spec fn decimal_u32(s: Seq<char>) -> Option<u32> {
    let d = unsigned_digits(s);
    if d.len() > 0 && (forall|i: int| 0 <= i < d.len() ==> is_decimal_digit(#[trigger] d[i]))
        && digits_value(d) <= u32::MAX {
        Some(digits_value(d) as u32)
    } else {
        None
    }
}

/// Relies on `u32::from_str`, that is `from_str_radix(s, 10)`: an optional `+`
/// and decimal digits, within range.
#[verifier::external_body]
fn u32_from_str(s: &str) -> (r: Result<u32, ParseIntError>)
    ensures
        match r {
            Ok(n) => decimal_u32(s@) == Some(n),
            Err(_) => decimal_u32(s@) is None,
        },
{
    <u32 as std::str::FromStr>::from_str(s)
}

/// The height of the chain tip, sent as decimal text.
pub fn height_from_response(status: u16, body: &[u8]) -> (r: Result<u32, Error>)
    ensures
        status > 299 ==> (r matches Err(e) && is_status_error(status, body@, e)),
        status <= 299 ==> match utf8_text(body@) {
            None => r matches Err(Error::InvalidResponse),
            Some(t) => match decimal_u32(t) {
                Some(n) => r == Ok::<u32, Error>(n),
                None => r matches Err(Error::Parsing(_)),
            },
        },
{
    match read_response(Strategy::Text, status, body)? {
        Payload::Text(t) => match u32_from_str(t.as_str()) {
            Ok(n) => Ok(n),
            Err(e) => Err(Error::Parsing(e)),
        },
        Payload::Bytes(_) => Err(Error::InvalidResponse),
    }
}

/// A block hash sent as hex text: the tip's, or the one at a height.
pub fn block_hash_from_response(status: u16, body: &[u8]) -> (r: Result<BlockHash, Error>)
    ensures
        parsed_outcome(status, body@, |t: Seq<char>| is_hash_hex(t), |e: Error| e is HexToArray, r),
{
    match read_response(Strategy::Text, status, body)? {
        Payload::Text(t) => match block_hash_from_hex(t.as_str()) {
            Ok(h) => Ok(h),
            Err(e) => Err(Error::HexToArray(e)),
        },
        Payload::Bytes(_) => Err(Error::InvalidResponse),
    }
}

/// The id of the transaction at an index of a block, sent as hex text;
/// absent where the server knows no such block or index.
pub fn txid_from_response(status: u16, body: &[u8]) -> (r: Result<Option<Txid>, Error>)
    ensures
        optional_parsed_outcome(status, body@, |t: Seq<char>| is_hash_hex(t), |e: Error| e is HexToArray, r),
{
    match read_optional_response(Strategy::Text, status, body)? {
        None => Ok(None),
        Some(Payload::Text(t)) => match txid_from_hex(t.as_str()) {
            Ok(id) => Ok(Some(id)),
            Err(e) => Err(Error::HexToArray(e)),
        },
        Some(Payload::Bytes(_)) => Err(Error::InvalidResponse),
    }
}

/// A transaction that must exist: an absent one is an error naming its id.
pub fn transaction_or_not_found(r: Result<Option<Transaction>, Error>, txid: Txid) -> (o: Result<
    Transaction,
    Error,
>)
    ensures
        match r {
            Ok(Some(tx)) => o == Ok::<Transaction, Error>(tx),
            Ok(None) => o == Err::<Transaction, Error>(Error::TransactionNotFound(txid)),
            Err(e) => o == Err::<Transaction, Error>(e),
        },
{
    match r {
        Ok(Some(tx)) => Ok(tx),
        Ok(None) => Err(Error::TransactionNotFound(txid)),
        Err(e) => Err(e),
    }
}

/// A listing that the endpoint promises is never empty: an empty one is an
/// error, any other passes unchanged.
pub fn require_nonempty<T>(items: Vec<T>) -> (r: Result<Vec<T>, Error>)
    ensures
        items@.len() == 0 ==> (r matches Err(Error::EmptyResult)),
        items@.len() > 0 ==> (r matches Ok(v) && v@ == items@),
{
    if items.len() == 0 {
        Err(Error::EmptyResult)
    } else {
        Ok(items)
    }
}

/// The body that broadcasts a transaction: its consensus encoding as
/// lower-case hex, which reads back to the same bytes; up to the decoder's
/// size bound, those bytes are a whole encoding of a transaction.
pub fn broadcast_body(tx: &Transaction) -> (r: String)
    ensures
        is_hex(r@),
        r@ == lower_hex(hex_bytes(r@)),
        hex_bytes(r@).len() <= MAX_DECODED_SIZE ==> is_transaction_encoding(hex_bytes(r@)),
{
    let bytes = transaction_to_bytes(tx);
    let body = to_lower_hex(bytes.as_slice());
    proof {
        lemma_hex_round_trip(bytes@);
    }
    body
}

/// The SHA-256 digest of bytes.
pub uninterp spec fn sha256_digest(b: Seq<u8>) -> Seq<u8>;

/// Relies on `bitcoin::hashes::sha256::Hash::hash`: the SHA-256 digest of the
/// bytes, 32 bytes long.
#[verifier::external_body]
fn sha256(b: &[u8]) -> (r: Vec<u8>)
    ensures
        r@ == sha256_digest(b@),
        r@.len() == 32,
{
    let digest = <bitcoin::hashes::sha256::Hash as bitcoin::hashes::Hash>::hash(b);
    <bitcoin::hashes::sha256::Hash as bitcoin::hashes::Hash>::to_byte_array(digest).to_vec()
}

/// The script hash that names a script in the API's paths: the SHA-256 of
/// its bytes in lower-case hex.
pub fn script_hash_hex(script: &[u8]) -> (r: String)
    ensures
        r@ == lower_hex(sha256_digest(script@)),
        r@.len() == 64,
{
    let digest = sha256(script);
    to_lower_hex(digest.as_slice())
}

} // verus!
