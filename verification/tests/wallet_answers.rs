use atomicals::errors::Error;
use atomicals::operations::mining::{accept_worker_nonce, after_mining, reveal_after_mining, MintStage, MiningResult};
use atomicals::pattern::{anchored_pattern, regex_full_match};
use atomicals::signing::{
    check_signed_psbt, extract_signed_transaction, signed_psbt_base64, signed_transaction, unisat_public_key,
    wizz_public_key,
};
use atomicals::types::transaction::{OutPoint, Transaction, TxOut};
use atomicals::types::wasm::{WasmBitworkInfo, WasmTransaction};
use base64::Engine as _;
use bitcoin::psbt::Psbt;

const COMPRESSED_G: &str = "0279be667ef9dcbbac55a06295ce870b07029bfcdb2dce28d959f2815b16f81798";
const GENERATOR_X: &str = "79be667ef9dcbbac55a06295ce870b07029bfcdb2dce28d959f2815b16f81798";

fn transaction(sequence: u32, value: u64) -> Transaction {
    let input = (OutPoint { txid: [7u8; 32], vout: 1 }, sequence);
    let output = TxOut { value, script_pubkey: vec![0x51] };
    Transaction::new(2, 0, &[input], &[output])
}

fn bitcoin_tx(tx: &Transaction) -> bitcoin::Transaction {
    bitcoin::consensus::deserialize(tx.bytes()).unwrap()
}

fn unsigned_psbt() -> Psbt {
    Psbt::from_unsigned_tx(bitcoin_tx(&transaction(0xffff_fffd, 1000))).unwrap()
}

fn signed_psbt() -> Psbt {
    let mut psbt = unsigned_psbt();
    psbt.inputs[0].final_script_witness = Some(bitcoin::Witness::from_slice(&[vec![1u8; 64]]));
    psbt.inputs[0].witness_utxo = Some(bitcoin::TxOut {
        value: bitcoin::Amount::from_sat(2000),
        script_pubkey: bitcoin::ScriptBuf::from_bytes(vec![0x51]),
    });
    psbt
}

#[test]
fn signed_psbt_hex_is_checked() {
    let signed = signed_psbt().serialize();
    assert_eq!(check_signed_psbt(hex::encode(&signed).as_bytes()).unwrap(), signed);
    let unsigned = unsigned_psbt().serialize();
    match check_signed_psbt(hex::encode(&unsigned).as_bytes()) {
        Err(Error::WalletError(m)) => assert_eq!(m, "PSBT signing incomplete"),
        other => panic!("unexpected {:?}", other),
    }
    match check_signed_psbt(b"zz") {
        Err(Error::WalletError(m)) => {
            assert_eq!(m, format!("Failed to decode hex PSBT: {}", hex::decode("zz").unwrap_err()))
        }
        other => panic!("unexpected {:?}", other),
    }
    match check_signed_psbt(b"00ff") {
        Err(Error::WalletError(m)) => assert!(m.starts_with("Failed to parse signed PSBT: ")),
        other => panic!("unexpected {:?}", other),
    }
}

#[test]
fn signed_psbt_base64_is_read() {
    let signed = signed_psbt().serialize();
    let text = base64::engine::general_purpose::STANDARD.encode(&signed);
    assert_eq!(signed_psbt_base64(&text).unwrap(), signed);
    match signed_psbt_base64("!!") {
        Err(Error::WalletError(m)) => assert!(m.starts_with("Failed to decode base64 PSBT: ")),
        other => panic!("unexpected {:?}", other),
    }
    match signed_psbt_base64("AAAA") {
        Err(Error::WalletError(m)) => assert!(m.starts_with("Failed to parse signed PSBT: ")),
        other => panic!("unexpected {:?}", other),
    }
}

#[test]
fn signed_transaction_hex_is_read() {
    let tx = transaction(5, 1000);
    let read = signed_transaction(&hex::encode(tx.bytes())).unwrap();
    assert_eq!(read.bytes(), tx.bytes());
    match signed_transaction("xyz") {
        Err(Error::HexError(m)) => assert_eq!(m, hex::decode("xyz").unwrap_err().to_string()),
        other => panic!("unexpected {:?}", other),
    }
    match signed_transaction("0200") {
        Err(Error::SerializationError(m)) => {
            let e = bitcoin::consensus::deserialize::<bitcoin::Transaction>(&[2, 0]).unwrap_err();
            assert_eq!(m, e.to_string())
        }
        other => panic!("unexpected {:?}", other),
    }
}

#[test]
fn transaction_from_a_signed_psbt() {
    let psbt = signed_psbt();
    let expected = bitcoin::consensus::serialize(&psbt.clone().extract_tx().unwrap());
    let tx = extract_signed_transaction(&psbt.serialize(), "commit").unwrap();
    assert_eq!(tx.bytes(), &expected);
    let missing = unsigned_psbt().serialize();
    match extract_signed_transaction(&missing, "reveal") {
        Err(Error::TransactionError(m)) => assert!(m.starts_with("Failed to extract reveal tx: ")),
        other => panic!("unexpected {:?}", other),
    }
    let mut short = signed_psbt();
    short.inputs[0].witness_utxo = None;
    short.inputs[0].non_witness_utxo = Some(bitcoin_tx(&transaction(0, 1)));
    match extract_signed_transaction(&short.serialize(), "commit") {
        Err(Error::TransactionError(m)) => {
            assert_eq!(m, "Failed to extract commit tx: a non-witness UTXO lacks the spent output")
        }
        other => panic!("unexpected {:?}", other),
    }
}

#[test]
fn wallet_public_keys() {
    let g = hex::decode(GENERATOR_X).unwrap();
    assert_eq!(wizz_public_key(&format!("0x{}", COMPRESSED_G)).unwrap().to_vec(), g);
    assert_eq!(wizz_public_key(&format!("0x0x{}", COMPRESSED_G)).unwrap().to_vec(), g);
    assert_eq!(unisat_public_key(COMPRESSED_G).unwrap().to_vec(), g);
    match unisat_public_key("0x02") {
        Err(Error::WalletError(m)) => assert!(m.starts_with("Invalid public key: ")),
        other => panic!("unexpected {:?}", other),
    }
    match wizz_public_key("nothex") {
        Err(Error::WalletError(m)) => assert!(m.starts_with("Failed to parse public key: ")),
        other => panic!("unexpected {:?}", other),
    }
}

#[test]
fn patterns_match_whole_names() {
    assert_eq!(anchored_pattern("a+"), "^a+$");
    assert_eq!(regex_full_match("a+", "aaa"), Some(true));
    assert_eq!(regex_full_match("a+", "aab"), Some(false));
    assert_eq!(regex_full_match("b", "abc"), Some(false));
    assert_eq!(regex_full_match("(", "x"), None);
}

#[test]
fn worker_nonces_are_checked() {
    let tx = transaction(0, 1000);
    let wrapper = WasmTransaction::from_transaction(&tx);
    let mut hit = None;
    for n in 0u32..4096 {
        let mut b = bitcoin_tx(&tx);
        b.input[0].sequence = bitcoin::Sequence(n);
        if b.txid().to_string().starts_with('0') {
            hit = Some(n);
            break;
        }
    }
    let n = hit.expect("a nonce with a leading zero");
    assert!(accept_worker_nonce(&wrapper, n, "0"));
    let mut b = bitcoin_tx(&tx);
    b.input[0].sequence = bitcoin::Sequence(n);
    let id = b.txid().to_string();
    assert!(accept_worker_nonce(&wrapper, n, &id[..4]));
    let other = if id.starts_with("00") { "1" } else { "00" };
    assert!(!accept_worker_nonce(&wrapper, n, other));
    assert!(!accept_worker_nonce(&WasmTransaction::from_hex("zz".to_string()), n, ""));
    assert_eq!(WasmBitworkInfo::new("4294967295".to_string(), "ab".to_string()).to_bitwork_info().difficulty, u32::MAX);
    assert_eq!(WasmBitworkInfo::new("4294967296".to_string(), "ab".to_string()).to_bitwork_info().difficulty, 16);
    assert_eq!(WasmBitworkInfo::new("+5".to_string(), "ab".to_string()).to_bitwork_info().difficulty, 5);
    assert_eq!(WasmBitworkInfo::new("12a".to_string(), "ab".to_string()).to_bitwork_info().difficulty, 16);
}

#[test]
fn steps_after_mining() {
    let current = transaction(0, 1000);
    let mined = transaction(77, 1000);
    let failed = MiningResult::with_transaction(false, None, None);
    match after_mining(MintStage::Commit, &failed, current.clone()) {
        Err(Error::MiningError(m)) => assert_eq!(m, "Failed to mine commit transaction"),
        other => panic!("unexpected {:?}", other),
    }
    match reveal_after_mining(&failed, current.clone()) {
        Err(Error::MiningError(m)) => assert_eq!(m, "Failed to mine reveal transaction"),
        other => panic!("unexpected {:?}", other),
    }
    let found = MiningResult::with_transaction(true, Some(77), Some(&mined));
    assert_eq!(after_mining(MintStage::Reveal, &found, current.clone()).unwrap().bytes(), mined.bytes());
    let bare = MiningResult::with_transaction(true, Some(77), None);
    assert_eq!(after_mining(MintStage::Reveal, &bare, current.clone()).unwrap().bytes(), current.bytes());
    let reveal = transaction(0, 555);
    let updated = reveal_after_mining(&found, reveal.clone()).unwrap();
    assert_eq!(bitcoin_tx(&updated).input[0].sequence, bitcoin::Sequence(77));
    assert_eq!(bitcoin_tx(&updated).output[0].value.to_sat(), 555);
    assert_eq!(reveal_after_mining(&bare, reveal.clone()).unwrap().bytes(), reveal.bytes());
}
