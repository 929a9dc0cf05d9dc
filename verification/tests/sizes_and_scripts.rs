use atomicals::types::transaction::{OutPoint, Transaction, TxOut};
use atomicals::utils::script::append_mint_update_reveal_script;
use atomicals::utils::script_builder::build_atomicals_op_return;
use atomicals::utils::tx_size::{
    calculate_tx_size, commit_size_quarters, compact_size_bytes, get_input_size, get_output_size,
    reveal_size_quarters, ScriptType, TransactionSize,
};
use atomicals::utils::{estimate_tx_size, try_estimate_tx_size, validate_ticker, validate_ticker_new};
use atomicals::errors::Error;
use serde_json::Value;

#[test]
fn test_validate_ticker() {
    assert!(validate_ticker("TEST"));
    assert!(validate_ticker("Test123"));
    assert!(!validate_ticker("123Test"));
    assert!(!validate_ticker("Test@123"));
    assert!(!validate_ticker(""));
    assert!(!validate_ticker("ThisIsAVeryLongTickerName"));
}

#[test]
fn test_estimate_tx_size() {
    let tx = Transaction::new(2, 0, &[], &[]);
    assert_eq!(estimate_tx_size(&tx).unwrap(), 10);
}

#[test]
fn test_build_atomicals_op_return() {
    let mut meta = serde_json::Map::new();
    meta.insert("name".to_string(), Value::String("Test Token".to_string()));
    meta.insert("description".to_string(), Value::String("A test token".to_string()));
    let mut payload = serde_json::Map::new();
    payload.insert("op".to_string(), Value::String("ft".to_string()));
    payload.insert("tick".to_string(), Value::String("TEST".to_string()));
    payload.insert("meta".to_string(), Value::Object(meta));
    let payload_json = serde_json::to_vec(&Value::Object(payload)).unwrap();

    let script = build_atomicals_op_return(&payload_json).unwrap();

    assert_eq!(script[0], bitcoin::opcodes::all::OP_RETURN.to_u8());
    assert_eq!(&script[1..5], b"atom");
    assert_eq!(script[5], 0x01);
}

#[test]
fn test_p2wpkh_transaction_size() {
    let input_types = vec![ScriptType::P2WPKH, ScriptType::P2WPKH];
    let output_types = vec![ScriptType::P2WPKH, ScriptType::P2WPKH];

    let size = calculate_tx_size(&input_types, &output_types, false);

    assert_eq!(size.base_size as f64, 10.0 + (68.0 * 2.0) + (31.0 * 2.0));
    assert_eq!(size.witness_size as f64, 107.0 * 2.0);

    let expected_vsize = (size.base_size as f64 * 4.0 + size.witness_size as f64 + 3.0) / 4.0;
    assert_eq!(size.total_vsize_quarters() as f64 / 4.0, expected_vsize);
}

#[test]
fn ticker_rules_of_the_checked_form() {
    assert!(validate_ticker_new("abc_123").is_ok());
    match validate_ticker_new("") {
        Err(Error::InvalidTicker(m)) => assert_eq!(m, "Ticker must be between 1 and 21 characters"),
        other => panic!("unexpected {:?}", other),
    }
    match validate_ticker_new("abcdefghijklmnopqrstuv") {
        Err(Error::InvalidTicker(m)) => assert_eq!(m, "Ticker must be between 1 and 21 characters"),
        other => panic!("unexpected {:?}", other),
    }
    match validate_ticker_new("ab-c") {
        Err(Error::InvalidTicker(m)) => {
            assert_eq!(m, "Ticker can only contain alphanumeric characters and underscores")
        }
        other => panic!("unexpected {:?}", other),
    }
}

#[test]
fn a_valid_ticker_passes_the_checked_form() {
    for t in ["TEST", "Test123", "a", "abcdefghijklmnopqrstu"] {
        assert!(validate_ticker(t));
        assert!(validate_ticker_new(t).is_ok());
    }
}

#[test]
fn estimate_counts_inputs_and_outputs() {
    let o = OutPoint { txid: [7u8; 32], vout: 1 };
    let outs = vec![
        TxOut { value: 1000, script_pubkey: vec![0x00, 0x14, 1, 2, 3, 4, 5, 6, 7, 8, 9, 10, 11, 12, 13, 14, 15, 16, 17, 18, 19, 20] },
        TxOut { value: 2000, script_pubkey: vec![0x6a] },
    ];
    let tx = Transaction::new(2, 0, &[(o, 0xffff_fffd), (o, 0)], &outs);
    assert_eq!(tx.input_count(), 2);
    assert_eq!(tx.output_count(), 2);
    assert_eq!(estimate_tx_size(&tx).unwrap(), 10 + 2 * 150 + 2 * 34);
    assert_eq!(try_estimate_tx_size(&tx), Some(378));
}

#[test]
fn sizes_per_script_type() {
    assert_eq!(get_input_size(&ScriptType::P2PKH), TransactionSize::new(148, 0));
    assert_eq!(get_input_size(&ScriptType::P2WPKH), TransactionSize::new(68, 107));
    assert_eq!(get_input_size(&ScriptType::P2TR), TransactionSize::new(108, 108));
    assert_eq!(get_output_size(&ScriptType::P2PKH), 34);
    assert_eq!(get_output_size(&ScriptType::P2WPKH), 31);
    assert_eq!(get_output_size(&ScriptType::P2TR), 34);
}

#[test]
fn op_return_output_adds_its_bytes() {
    let ins = vec![ScriptType::P2TR];
    let outs = vec![ScriptType::P2TR];
    let without = calculate_tx_size(&ins, &outs, false);
    let with = calculate_tx_size(&ins, &outs, true);
    assert_eq!(without.base_size, 10 + 108 + 34);
    assert_eq!(without.witness_size, 108);
    assert_eq!(with.base_size, without.base_size + 40);
    assert_eq!(with.witness_size, without.witness_size);
}

#[test]
fn compact_sizes() {
    assert_eq!(compact_size_bytes(0), 1);
    assert_eq!(compact_size_bytes(252), 1);
    assert_eq!(compact_size_bytes(253), 3);
    assert_eq!(compact_size_bytes(0x10000), 5);
}

#[test]
fn commit_and_reveal_sizes_in_quarters() {
    // 10.5 + 57.5 + 2 * 43 virtual bytes
    assert_eq!(commit_size_quarters(1, 2), 42 + 230 + 2 * 172);
    assert_eq!(reveal_size_quarters(1, 1, 100), 42 + 264 + 1 + 100 + 230 + 172);
    assert_eq!(reveal_size_quarters(0, 1, 300), 42 + 264 + 3 + 300 + 172);
}

#[test]
fn script_types_from_templates() {
    let mut p2pkh = vec![0x76, 0xa9, 0x14];
    p2pkh.extend_from_slice(&[0u8; 20]);
    p2pkh.extend_from_slice(&[0x88, 0xac]);
    assert_eq!(ScriptType::from_script(&p2pkh), Some(ScriptType::P2PKH));
    let mut p2wpkh = vec![0x00, 0x14];
    p2wpkh.extend_from_slice(&[1u8; 20]);
    assert_eq!(ScriptType::from_script(&p2wpkh), Some(ScriptType::P2WPKH));
    let mut p2tr = vec![0x51, 0x20];
    p2tr.extend_from_slice(&[2u8; 32]);
    assert_eq!(ScriptType::from_script(&p2tr), Some(ScriptType::P2TR));
    assert_eq!(ScriptType::from_script(&[0x6a, 0x01, 0x02]), None);
}

#[test]
fn large_payload_goes_in_pieces() {
    let payload: Vec<u8> = (0..600u32).map(|i| (i % 251) as u8).collect();
    let script = build_atomicals_op_return(&payload).unwrap();
    assert_eq!(&script[0..6], &[0x6a, b'a', b't', b'o', b'm', 0x01]);
    // first piece: OP_PUSHDATA2 520
    assert_eq!(&script[6..9], &[0x4d, 0x08, 0x02]);
    assert_eq!(&script[9..529], &payload[0..520]);
    // second piece: 80 bytes with OP_PUSHDATA1
    assert_eq!(&script[529..531], &[0x4c, 80]);
    assert_eq!(&script[531..], &payload[520..]);
    let reassembled: Vec<u8> = [&script[9..529], &script[531..]].concat();
    assert_eq!(reassembled, payload);
}

#[test]
fn reveal_script_layout() {
    let key = [0x11u8; 32];
    let script = append_mint_update_reveal_script("nft", &key, &[1, 2, 3]).unwrap();
    let mut expected = vec![0x20];
    expected.extend_from_slice(&key);
    expected.extend_from_slice(&[0xac, 0x00, 0x63, 0x04, b'a', b't', b'o', b'm', 0x03, b'n', b'f', b't', 0x03, 1, 2, 3, 0x68]);
    assert_eq!(script, expected);
}
