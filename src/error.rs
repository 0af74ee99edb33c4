//! The ways a call to the API can fail.
use bitcoin::hex::error::{HexToArrayError, HexToBytesError};
use bitcoin::Txid;
use async_minreq::Error as MinreqError;
use bitcoin::consensus::encode::Error as EncodeError;
use serde_json::Error as JsonError;
use std::num::ParseIntError;
use vstd::prelude::*;

verus! {

/// Declares bitcoin's consensus decoding error, carried as it is.
#[verifier::external_type_specification]
#[verifier::external_body]
pub struct ExEncodeError(EncodeError);

/// Declares hex-conservative's error for text that is not hex, carried as it is.
#[verifier::external_type_specification]
#[verifier::external_body]
pub struct ExHexToBytesError(HexToBytesError);

/// Declares hex-conservative's error for text that is not a 32-byte hash, carried as it is.
#[verifier::external_type_specification]
#[verifier::external_body]
pub struct ExHexToArrayError(HexToArrayError);

/// Declares std's error for text that is not a `u32`, carried as it is.
#[verifier::external_type_specification]
#[verifier::external_body]
pub struct ExParseIntError(ParseIntError);

/// Declares async_minreq's transport error, carried as it is.
#[verifier::external_type_specification]
#[verifier::external_body]
pub struct ExMinreqError(MinreqError);

/// Declares serde_json's decoding error, carried as it is.
#[verifier::external_type_specification]
#[verifier::external_body]
pub struct ExJsonError(JsonError);

/// Errors of the client.
#[derive(Debug)]
pub enum Error {
    /// The request failed below HTTP: connection, DNS or framing.
    Transport(MinreqError),
    /// The server answered with a failure status, after any retries.
    HttpResponse { status: u16, message: String },
    /// The body could not be read as UTF-8 text where text was needed.
    InvalidResponse,
    /// The body was not a valid consensus encoding of the expected type.
    BitcoinEncoding(EncodeError),
    /// The body was not hex text.
    HexToBytes(HexToBytesError),
    /// The body was not the hex form of a 32-byte hash.
    HexToArray(HexToArrayError),
    /// The body was not a decimal integer in range.
    Parsing(ParseIntError),
    /// The body was not the JSON document expected.
    Json(JsonError),
    /// The server returned an empty list where the endpoint promises entries.
    EmptyResult,
    /// No transaction with this id is known to the server.
    TransactionNotFound(Txid),
}

} // verus!
