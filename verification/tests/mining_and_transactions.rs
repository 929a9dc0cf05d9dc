use atomicals::operations::mining::{
    mine_nonce_range, verify_bitwork, worker_ranges, MiningOptions, MiningResult, MAX_SEQUENCE,
};
use atomicals::types::mint::BitworkInfo;
use atomicals::types::transaction::{AtomicalsTx, OutPoint, Transaction, TxOut};
use atomicals::types::wasm::WasmTransaction;
use atomicals::worker::{mine_range, MiningTask};
use bitcoin::consensus::{deserialize, serialize};
use sha2::{Digest, Sha256};

fn sample_tx() -> Transaction {
    let o = OutPoint { txid: [9u8; 32], vout: 3 };
    let outs = vec![TxOut { value: 5000, script_pubkey: vec![0x51, 0x20, 1, 2, 3, 4, 5, 6, 7, 8, 9, 10, 11, 12, 13, 14, 15, 16, 17, 18, 19, 20, 21, 22, 23, 24, 25, 26, 27, 28, 29, 30, 31, 32] }];
    Transaction::new(1, 0, &[(o, 0)], &outs)
}

#[test]
fn transactions_decode_as_bitcoin_transactions() {
    let tx = sample_tx();
    let decoded: bitcoin::Transaction = deserialize(tx.bytes()).unwrap();
    assert_eq!(decoded.version.0, 1);
    assert_eq!(decoded.input.len(), 1);
    assert_eq!(decoded.input[0].previous_output.vout, 3);
    assert_eq!(decoded.input[0].sequence.0, 0);
    assert_eq!(decoded.output[0].value.to_sat(), 5000);
    assert_eq!(tx.txid(), decoded.txid().to_string());
    assert_eq!(tx.txid_bytes(), bitcoin::hashes::Hash::to_byte_array(decoded.txid()));
    assert_eq!(serialize(&decoded), tx.to_bytes());
}

#[test]
fn bytes_that_are_no_transaction_are_refused() {
    assert!(Transaction::from_bytes(vec![1, 2, 3]).is_none());
    let tx = sample_tx();
    let mut longer = tx.to_bytes();
    longer.push(0);
    assert!(Transaction::from_bytes(longer).is_none());
    assert_eq!(Transaction::from_bytes(tx.to_bytes()).unwrap().bytes(), tx.bytes());
}

#[test]
fn empty_transaction_round_trips() {
    let tx = Transaction::new(2, 0, &[], &[]);
    assert_eq!(tx.input_count(), 0);
    assert_eq!(tx.output_count(), 0);
    let again = Transaction::from_bytes(tx.to_bytes()).unwrap();
    assert_eq!(again.txid(), tx.txid());
}

#[test]
fn hex_form_round_trips() {
    let tx = sample_tx();
    let w = WasmTransaction::from_transaction(&tx);
    assert_eq!(w.to_hex(), hex::encode(tx.bytes()));
    let back = w.to_transaction().unwrap();
    assert_eq!(back.bytes(), tx.bytes());
    assert!(WasmTransaction::new("zz".to_string()).to_transaction().is_none());
    assert!(WasmTransaction::from_hex("00".to_string()).to_transaction().is_none());
}

#[test]
fn setting_the_sequence_rewrites_the_first_input() {
    let tx = sample_tx();
    let mut w = WasmTransaction::from_transaction(&tx);
    assert!(w.set_sequence(0xdeadbeef));
    let decoded: bitcoin::Transaction = deserialize(&hex::decode(w.to_hex()).unwrap()).unwrap();
    assert_eq!(decoded.input[0].sequence.0, 0xdeadbeef);
    assert_eq!(w.to_transaction().unwrap().to_bytes(), serialize(&decoded));
    assert_ne!(w.to_hex(), hex::encode(tx.bytes()));
    let mut empty = WasmTransaction::from_transaction(&Transaction::new(2, 0, &[], &[]));
    let before = empty.to_hex();
    assert!(!empty.set_sequence(5));
    assert_eq!(empty.to_hex(), before);
    let mut junk = WasmTransaction::new("xyz".to_string());
    assert!(!junk.set_sequence(5));
    assert_eq!(junk.to_hex(), "xyz");
}

#[test]
fn mining_result_keeps_the_transaction() {
    let tx = sample_tx();
    let r = MiningResult::with_transaction(true, Some(7), Some(&tx));
    assert!(r.success);
    assert_eq!(r.nonce, Some(7));
    assert_eq!(r.get_transaction().unwrap().bytes(), tx.bytes());
    let none = MiningResult::with_transaction(false, None, None);
    assert!(none.get_transaction().is_none());
    let o = MiningOptions::new();
    assert_eq!((o.num_workers, o.batch_size), (4, 100000));
}

fn first_hit(tx_hex: &str, start: u32, end: u32, bitwork: &str) -> Option<u32> {
    for n in start..=end {
        let data = hex::decode(format!("{}{:08x}", tx_hex, n)).unwrap();
        let digest = hex::encode(Sha256::digest(&data));
        if digest.starts_with(bitwork) {
            return Some(n);
        }
    }
    None
}

#[test]
fn nonce_search_finds_the_first_hit() {
    let w = WasmTransaction::from_transaction(&sample_tx());
    let hex = w.to_hex();
    let expected = first_hit(&hex, 0, 400, "0");
    assert!(expected.is_some());
    assert_eq!(mine_nonce_range(&w, 0, 400, "0"), expected);
    let expected = first_hit(&hex, 100, 300, "a");
    assert_eq!(mine_nonce_range(&w, 100, 300, "a"), expected);
    assert_eq!(mine_nonce_range(&w, 5, 4, ""), None);
    assert_eq!(mine_nonce_range(&w, 5, 5, ""), Some(5));
    assert_eq!(first_hit(&hex, 0, 50, "ffffff"), None);
    assert_eq!(mine_nonce_range(&w, 0, 50, "ffffff"), None);
}

#[test]
fn worker_ranges_split_the_nonce_space() {
    let r = worker_ranges(4);
    let share = MAX_SEQUENCE / 4;
    assert_eq!(r, vec![(0, share - 1), (share, 2 * share - 1), (2 * share, 3 * share - 1), (3 * share, MAX_SEQUENCE)]);
    for n in [1u32, 3, 7, 100] {
        let r = worker_ranges(n);
        assert_eq!(r.len(), n as usize);
        assert_eq!(r[0].0, 0);
        assert_eq!(r[r.len() - 1].1, MAX_SEQUENCE);
        for i in 1..r.len() {
            assert_eq!(r[i].0, r[i - 1].1 + 1);
        }
    }
}

#[test]
fn worker_finds_first_sequence_whose_id_shows_the_prefix() {
    let tx = sample_tx();
    let mut expected = None;
    for n in 0..2000u32 {
        let mut t: bitcoin::Transaction = deserialize(tx.bytes()).unwrap();
        t.input[0].sequence = bitcoin::Sequence(n);
        if t.txid().to_string().starts_with("00") {
            expected = Some((n, serialize(&t)));
            break;
        }
    }
    let task = MiningTask { tx: tx.clone(), start_nonce: 0, end_nonce: 2000, bitwork_prefix: "00".to_string() };
    let r = mine_range(task);
    match expected {
        Some((n, bytes)) => {
            assert!(r.success);
            assert_eq!(r.nonce, Some(n));
            assert_eq!(r.tx.unwrap().to_bytes(), bytes);
        }
        None => assert!(!r.success),
    }
    let miss = mine_range(MiningTask { tx, start_nonce: 10, end_nonce: 10, bitwork_prefix: "0".to_string() });
    assert!(!miss.success && miss.nonce.is_none() && miss.tx.is_none());
}

#[test]
fn bitwork_of_a_transaction_id() {
    let tx = sample_tx();
    let id = tx.txid();
    let yes = BitworkInfo::new(id[0..2].to_string());
    assert!(verify_bitwork(&tx, &yes));
    let other = if id.starts_with('f') { "0" } else { "f" };
    let no = BitworkInfo::new(other.to_string());
    assert!(!verify_bitwork(&tx, &no));
    assert_eq!(yes.matches(&id), verify_bitwork(&tx, &yes));
    assert_eq!(no.matches(&id), verify_bitwork(&tx, &no));
}

#[test]
fn atomicals_tx_records() {
    let commit = sample_tx();
    let reveal = Transaction::new(2, 0, &[], &[]);
    let a = AtomicalsTx::new_with_commit_reveal(commit.clone(), reveal.clone(), Some("c".to_string()), None);
    assert_eq!(a.txid(), reveal.txid());
    assert_eq!(a.commit_txid.as_deref(), Some("c"));
    let b = AtomicalsTx::new(commit.clone(), vec![]).with_atomicals_id("id".to_string());
    assert_eq!(b.atomicals_id.as_deref(), Some("id"));
    assert_eq!(b.txid(), commit.txid());
}
