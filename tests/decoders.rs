use esplora_client::endpoints::{
    block_from_response, block_hash_from_response, broadcast_body, header_from_response,
    height_from_response, merkle_block_from_response, require_nonempty, script_hash_hex,
    transaction_from_response, transaction_or_not_found, txid_from_response,
};
use esplora_client::{check_status, optional, read_optional_response, read_response, Error, Payload, Strategy};


const STRATEGIES: [Strategy; 4] = [Strategy::Binary, Strategy::Hex, Strategy::Json, Strategy::Text];

fn sample_tx() -> bitcoin::Transaction {
    bitcoin::Transaction {
        version: bitcoin::transaction::Version::TWO,
        lock_time: bitcoin::absolute::LockTime::ZERO,
        input: vec![bitcoin::TxIn::default()],
        output: vec![bitcoin::TxOut {
            value: bitcoin::Amount::from_sat(1000),
            script_pubkey: bitcoin::ScriptBuf::new(),
        }],
    }
}

#[test]
fn status_check() {
    assert!(check_status(200, b"ok").is_ok());
    assert!(check_status(299, b"").is_ok());
    match check_status(400, b"bad request") {
        Err(Error::HttpResponse { status, message }) => {
            assert_eq!(status, 400);
            assert_eq!(message, "bad request");
        }
        other => panic!("unexpected {:?}", other),
    }
    assert!(matches!(check_status(500, &[0xff, 0xfe]), Err(Error::InvalidResponse)));
}

#[test]
fn not_found_is_absent_for_every_decoder() {
    for s in STRATEGIES {
        assert!(matches!(read_optional_response(s, 404, b"Transaction not found"), Ok(None)));
    }
}

#[test]
fn server_error_is_propagated_for_every_decoder() {
    for s in STRATEGIES {
        match read_optional_response(s, 500, b"oops") {
            Err(Error::HttpResponse { status, message }) => {
                assert_eq!(status, 500);
                assert_eq!(message, "oops");
            }
            other => panic!("unexpected {:?}", other),
        }
    }
}

#[test]
fn optional_keeps_other_results() {
    assert!(matches!(optional(Ok::<u8, Error>(3)), Ok(Some(3))));
    assert!(matches!(optional::<u8>(Err(Error::InvalidResponse)), Err(Error::InvalidResponse)));
    let e = Error::HttpResponse { status: 400, message: String::new() };
    assert!(matches!(optional::<u8>(Err(e)), Err(Error::HttpResponse { status: 400, .. })));
}

#[test]
fn each_strategy_reads_its_body() {
    assert_eq!(read_response(Strategy::Binary, 200, &[1, 2, 255]).unwrap(), Payload::Bytes(vec![1, 2, 255]));
    assert_eq!(read_response(Strategy::Hex, 200, b"0aFf").unwrap(), Payload::Bytes(vec![10, 255]));
    assert_eq!(read_response(Strategy::Text, 200, b"hello").unwrap(), Payload::Text("hello".to_string()));
    assert_eq!(read_response(Strategy::Json, 200, b"{\"a\":1}").unwrap(), Payload::Text("{\"a\":1}".to_string()));
    assert!(matches!(read_response(Strategy::Hex, 200, b"abc"), Err(Error::HexToBytes(_))));
    assert!(matches!(read_response(Strategy::Hex, 200, b"zz"), Err(Error::HexToBytes(_))));
    assert!(matches!(read_response(Strategy::Text, 200, &[0xc3]), Err(Error::InvalidResponse)));
    assert!(matches!(read_response(Strategy::Hex, 200, &[0xc3]), Err(Error::InvalidResponse)));
}

#[test]
fn tip_height_parses() {
    assert_eq!(height_from_response(200, b"123456").unwrap(), 123456);
    assert_eq!(height_from_response(200, b"+7").unwrap(), 7);
    assert_eq!(height_from_response(200, b"4294967295").unwrap(), u32::MAX);
    assert!(matches!(height_from_response(200, b"abc"), Err(Error::Parsing(_))));
    assert!(matches!(height_from_response(200, b""), Err(Error::Parsing(_))));
    assert!(matches!(height_from_response(200, b"4294967296"), Err(Error::Parsing(_))));
    assert!(matches!(height_from_response(200, b" 1"), Err(Error::Parsing(_))));
    assert!(matches!(height_from_response(503, b"busy"), Err(Error::HttpResponse { status: 503, .. })));
}

#[test]
fn missing_transaction_is_absent() {
    assert!(matches!(transaction_from_response(404, b"Transaction not found"), Ok(None)));
    assert!(matches!(block_from_response(404, b"Block not found"), Ok(None)));
    assert!(matches!(merkle_block_from_response(404, b""), Ok(None)));
    assert!(matches!(txid_from_response(404, b"not found"), Ok(None)));
}

#[test]
fn transaction_must_exist() {
    let txid = <bitcoin::Txid as bitcoin::hashes::Hash>::all_zeros();
    assert!(matches!(transaction_or_not_found(Ok(None), txid), Err(Error::TransactionNotFound(t)) if t == txid));
    let tx = sample_tx();
    assert_eq!(transaction_or_not_found(Ok(Some(tx.clone())), txid).unwrap(), tx);
    assert!(matches!(transaction_or_not_found(Err(Error::EmptyResult), txid), Err(Error::EmptyResult)));
}

#[test]
fn broadcast_body_round_trips() {
    let tx = sample_tx();
    let body = broadcast_body(&tx);
    assert_eq!(body, bitcoin::consensus::encode::serialize_hex(&tx));
    let bytes = match read_response(Strategy::Hex, 200, body.as_bytes()).unwrap() {
        Payload::Bytes(b) => b,
        other => panic!("unexpected {:?}", other),
    };
    assert_eq!(transaction_from_response(200, &bytes).unwrap(), Some(tx));
}

#[test]
fn bad_encodings_fail() {
    assert!(matches!(transaction_from_response(200, &[1, 2, 3]), Err(Error::BitcoinEncoding(_))));
    assert!(matches!(block_from_response(200, &[]), Err(Error::BitcoinEncoding(_))));
    assert!(matches!(header_from_response(200, b"00"), Err(Error::BitcoinEncoding(_))));
    assert!(matches!(header_from_response(200, b"0"), Err(Error::HexToBytes(_))));
    assert!(matches!(merkle_block_from_response(200, b"0011"), Err(Error::BitcoinEncoding(_))));
}

#[test]
fn header_decodes_from_hex() {
    let genesis = bitcoin::blockdata::constants::genesis_block(bitcoin::Network::Bitcoin).header;
    let body = bitcoin::consensus::encode::serialize_hex(&genesis);
    assert_eq!(header_from_response(200, body.as_bytes()).unwrap(), genesis);
}

#[test]
fn hashes_parse_from_text() {
    let text = "000000000019d6689c085ae165831e934ff763ae46a2a6c172b3f1b60a8ce26f";
    let hash = block_hash_from_response(200, text.as_bytes()).unwrap();
    assert_eq!(hash.to_string(), text);
    assert!(matches!(block_hash_from_response(200, b"xyz"), Err(Error::HexToArray(_))));
    let id = txid_from_response(200, text.as_bytes()).unwrap().unwrap();
    assert_eq!(id.to_string(), text);
    assert!(matches!(txid_from_response(200, &text.as_bytes()[2..]), Err(Error::HexToArray(_))));
}

#[test]
fn empty_block_list_is_an_error() {
    assert!(matches!(require_nonempty::<u32>(Vec::new()), Err(Error::EmptyResult)));
    assert_eq!(require_nonempty(vec![1u32, 2]).unwrap(), vec![1, 2]);
}

#[test]
fn script_hash_is_sha256_hex() {
    assert_eq!(
        script_hash_hex(&[]),
        "e3b0c44298fc1c149afbf4c8996fb92427ae41e4649b934ca495991b7852b855"
    );
    let script = bitcoin::ScriptBuf::from_bytes(vec![0x51]);
    let expected = format!("{:x}", <bitcoin::hashes::sha256::Hash as bitcoin::hashes::Hash>::hash(script.as_bytes()));
    assert_eq!(script_hash_hex(script.as_bytes()), expected);
}
