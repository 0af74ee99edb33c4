//! The Bitcoin types that the API hands out, and their consensus codecs.
use bitcoin::block::Header;
use bitcoin::consensus::encode::Error as EncodeError;
use bitcoin::hex::error::HexToArrayError;
use bitcoin::{Block, BlockHash, MerkleBlock, Transaction, Txid};
use crate::hex::is_hex;
use vstd::prelude::*;

verus! {

#[verifier::external_type_specification]
#[verifier::external_body]
pub struct ExTransaction(Transaction);

#[verifier::external_type_specification]
#[verifier::external_body]
pub struct ExBlock(Block);

#[verifier::external_type_specification]
#[verifier::external_body]
pub struct ExHeader(Header);

#[verifier::external_type_specification]
#[verifier::external_body]
pub struct ExMerkleBlock(MerkleBlock);

#[verifier::external_type_specification]
#[verifier::external_body]
pub struct ExTxid(Txid);

#[verifier::external_type_specification]
#[verifier::external_body]
pub struct ExBlockHash(BlockHash);

/// Text that reads as a 32-byte hash: exactly 64 hex digits.
pub open spec fn is_hash_hex(s: Seq<char>) -> bool {
    s.len() == 64 && is_hex(s)
}

/// The decoder's bound on a witness's content, in bytes.
pub const MAX_DECODED_SIZE: usize = 4_000_000;

/// Whether bytes are the consensus encoding of a transaction, with nothing
/// left over.
pub uninterp spec fn is_transaction_encoding(b: Seq<u8>) -> bool;

/// Whether bytes are the consensus encoding of a block, with nothing left over.
pub uninterp spec fn is_block_encoding(b: Seq<u8>) -> bool;

/// Whether bytes are the consensus encoding of a block header, with nothing
/// left over.
pub uninterp spec fn is_header_encoding(b: Seq<u8>) -> bool;

/// Whether bytes are the consensus encoding of a merkle block, with nothing
/// left over.
pub uninterp spec fn is_merkle_block_encoding(b: Seq<u8>) -> bool;

/// Relies on `bitcoin::consensus::deserialize::<Transaction>`: a value exactly
/// when the bytes are a whole encoding, else the decoder's error.
#[verifier::external_body]
pub(crate) fn transaction_from_bytes(b: &[u8]) -> (r: Result<Transaction, EncodeError>)
    ensures
        r is Ok <==> is_transaction_encoding(b@),
{
    bitcoin::consensus::deserialize::<Transaction>(b)
}

/// Relies on `bitcoin::consensus::deserialize::<Block>`: a value exactly when
/// the bytes are a whole encoding, else the decoder's error.
#[verifier::external_body]
pub(crate) fn block_from_bytes(b: &[u8]) -> (r: Result<Block, EncodeError>)
    ensures
        r is Ok <==> is_block_encoding(b@),
{
    bitcoin::consensus::deserialize::<Block>(b)
}

/// Relies on `bitcoin::consensus::deserialize::<block::Header>`: a value
/// exactly when the bytes are a whole encoding, else the decoder's error.
#[verifier::external_body]
pub(crate) fn header_from_bytes(b: &[u8]) -> (r: Result<Header, EncodeError>)
    ensures
        r is Ok <==> is_header_encoding(b@),
{
    bitcoin::consensus::deserialize::<Header>(b)
}

/// Relies on `bitcoin::consensus::deserialize::<MerkleBlock>`: a value exactly
/// when the bytes are a whole encoding, else the decoder's error.
#[verifier::external_body]
pub(crate) fn merkle_block_from_bytes(b: &[u8]) -> (r: Result<MerkleBlock, EncodeError>)
    ensures
        r is Ok <==> is_merkle_block_encoding(b@),
{
    bitcoin::consensus::deserialize::<MerkleBlock>(b)
}

/// Relies on `bitcoin::consensus::serialize::<Transaction>`: the transaction's
/// consensus encoding, in the legacy form or, where an input has a witness or
/// there is no input, the BIP141 form. The decoder reads either back whole
/// as long as no witness exceeds its 4,000,000-byte limit, which an encoding
/// of at most that many bytes cannot.
#[verifier::external_body]
pub(crate) fn transaction_to_bytes(tx: &Transaction) -> (r: Vec<u8>)
    ensures
        r@.len() <= MAX_DECODED_SIZE ==> is_transaction_encoding(r@),
{
    bitcoin::consensus::serialize(tx)
}

/// Relies on `Txid::from_str`: the hash read from 64 hex digits, an error
/// for any other text.
#[verifier::external_body]
pub(crate) fn txid_from_hex(s: &str) -> (r: Result<Txid, HexToArrayError>)
    ensures
        r is Ok <==> is_hash_hex(s@),
{
    <Txid as std::str::FromStr>::from_str(s)
}

/// Relies on `BlockHash::from_str`: the hash read from 64 hex digits, an
/// error for any other text.
#[verifier::external_body]
pub(crate) fn block_hash_from_hex(s: &str) -> (r: Result<BlockHash, HexToArrayError>)
    ensures
        r is Ok <==> is_hash_hex(s@),
{
    <BlockHash as std::str::FromStr>::from_str(s)
}

} // verus!
