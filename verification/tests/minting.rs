use atomicals::chain::BitcoinNetwork;
use atomicals::errors::Error;
use atomicals::operations::mint_ft::{
    commit_change, commit_transaction, ft_reveal_transaction, mint_payload, plan_mint_ft, select_utxos,
    ENABLE_RBF_NO_LOCKTIME,
};
use atomicals::operations::mint_subrealm::{
    apply_rule_bitwork, check_ownership, check_parent_location, check_wallet_owns_parent, electrum_scripthash,
    parent_internal_key, parent_outpoint, parent_script, plan_mint_subrealm, prepare_commit_reveal_config,
    requested_subrealm_part, select_rule,
    select_single_utxo, subrealm_payload, subrealm_reveal_transaction, ParentRule,
};
use atomicals::types::amount::Amount;
use atomicals::types::arc20::Arc20Config;
use atomicals::types::subrealm::{SubrealmClaimType, SubrealmConfig};
use atomicals::types::transaction::{OutPoint, TxOut};
use atomicals::utils::script::append_mint_update_reveal_script;
use atomicals::wallet::Utxo;
use bitcoin::consensus::deserialize;
use sha2::{Digest, Sha256};

const GENERATOR_X: &str = "79be667ef9dcbbac55a06295ce870b07029bfcdb2dce28d959f2815b16f81798";

fn key() -> [u8; 32] {
    let mut k = [0u8; 32];
    k.copy_from_slice(&hex::decode(GENERATOR_X).unwrap());
    k
}

fn p2wpkh(tag: u8) -> Vec<u8> {
    let mut s = vec![0x00, 0x14];
    s.extend_from_slice(&[tag; 20]);
    s
}

fn utxo(tag: u8, value: u64) -> Utxo {
    Utxo { outpoint: OutPoint { txid: [tag; 32], vout: tag as u32 }, txout: TxOut { value, script_pubkey: p2wpkh(tag) }, height: Some(100) }
}

#[test]
fn funding_outputs_are_taken_in_order_until_they_cover() {
    let utxos = vec![utxo(1, 1000), utxo(2, 2000), utxo(3, 5000)];
    let fees = vec![100, 150, 200];
    let (sel, fee) = select_utxos(&utxos, 2500, &fees).unwrap();
    assert_eq!(sel.len(), 2);
    assert_eq!(fee, 150);
    assert_eq!(sel[1].outpoint.txid, [2; 32]);
    match select_utxos(&utxos, 10_000, &fees) {
        Err(Error::InvalidAmount(m)) => assert_eq!(m, "Not enough funds to cover amount and fees"),
        other => panic!("unexpected {:?}", other),
    }
    let odd = vec![Utxo { outpoint: OutPoint { txid: [5; 32], vout: 0 }, txout: TxOut { value: 9000, script_pubkey: vec![0x6a] }, height: None }];
    match select_utxos(&odd, 10, &[1]) {
        Err(Error::TransactionError(m)) => assert_eq!(m, "Unsupported script type"),
        other => panic!("unexpected {:?}", other),
    }
    let big = vec![utxo(1, u64::MAX), utxo(2, 5)];
    match select_utxos(&big, u64::MAX, &[10, 10]) {
        Err(Error::TransactionError(m)) => assert_eq!(m, "Amount overflow"),
        other => panic!("unexpected {:?}", other),
    }
}

#[test]
fn change_of_a_commit() {
    assert_eq!(commit_change(10_000, 500, 3000).unwrap(), 6500);
    match commit_change(100, 500, 0) {
        Err(Error::InvalidAmount(m)) => assert_eq!(m, "Not enough funds to cover fees"),
        other => panic!("unexpected {:?}", other),
    }
    match commit_change(1000, 500, 600) {
        Err(Error::InvalidAmount(m)) => assert_eq!(m, "Not enough funds after fees"),
        other => panic!("unexpected {:?}", other),
    }
}

#[test]
fn token_mint_plan() {
    let utxos = vec![utxo(1, 1000), utxo(2, 9000)];
    let plan = plan_mint_ft(1000, &utxos, 300, 200, &[50, 80]).unwrap();
    assert_eq!(plan.selected.len(), 2);
    assert_eq!(plan.commit_output_value, 1300);
    assert_eq!(plan.commit_fee, 200);
    assert_eq!(plan.change, Some(10_000 - 200 - 1300));
    assert_eq!(plan.reveal_output_value, 1000);
    let dusty = plan_mint_ft(1000, &[utxo(1, 1900)], 300, 200, &[50]).unwrap();
    assert_eq!(dusty.change, None);
}

#[test]
fn commit_and_reveal_transactions() {
    let utxos = vec![utxo(1, 1000), utxo(2, 9000)];
    let commit_script = vec![0x51, 0x20, 7, 7, 7, 7, 7, 7, 7, 7, 7, 7, 7, 7, 7, 7, 7, 7, 7, 7, 7, 7, 7, 7, 7, 7, 7, 7, 7, 7, 7, 7, 7, 7];
    let change_script = p2wpkh(9);
    let commit = commit_transaction(2, &utxos, ENABLE_RBF_NO_LOCKTIME, 1300, &commit_script, Some(8500), &change_script);
    let t: bitcoin::Transaction = deserialize(commit.bytes()).unwrap();
    assert_eq!(t.version.0, 2);
    assert_eq!(t.input.len(), 2);
    assert_eq!(t.input[1].previous_output.vout, 2);
    assert_eq!(t.input[0].sequence.0, 0xffff_fffd);
    assert_eq!(t.output.len(), 2);
    assert_eq!(t.output[0].value.to_sat(), 1300);
    assert_eq!(t.output[0].script_pubkey.as_bytes(), &commit_script[..]);
    assert_eq!(t.output[1].value.to_sat(), 8500);
    let no_change = commit_transaction(1, &utxos[..1], 0, 900, &commit_script, None, &change_script);
    assert_eq!(no_change.output_count(), 1);

    let reveal = ft_reveal_transaction(commit.txid_bytes(), 1000, &change_script);
    let r: bitcoin::Transaction = deserialize(reveal.bytes()).unwrap();
    assert_eq!(r.input.len(), 1);
    assert_eq!(r.input[0].previous_output.txid, t.txid());
    assert_eq!(r.input[0].previous_output.vout, 0);
    assert_eq!(r.output[0].value.to_sat(), 1000);
}

#[test]
fn mint_payload_arguments() {
    let c = Arc20Config::new("abc".to_string(), Amount::from_sat(1)).unwrap();
    let p = mint_payload(&c, 1700000000, 42);
    assert_eq!(p.args.bitworkc, "");
    assert_eq!(p.args.mint_ticker, "abc");
    assert_eq!((p.args.time, p.args.nonce), (1700000000, 42));
    let c = c.with_bitworkc("0000".to_string()).unwrap();
    assert_eq!(mint_payload(&c, 1, 2).args.bitworkc, "0000");
}

#[test]
fn commit_reveal_config_for_a_key() {
    let payload = vec![0xa1, 0x61, 0x61, 0x01];
    let c = prepare_commit_reveal_config("nft", &key(), &payload, BitcoinNetwork::Testnet).unwrap();
    assert_eq!(c.script, append_mint_update_reveal_script("nft", &key(), &payload).unwrap());
    assert_eq!(c.script_pubkey.len(), 34);
    assert_eq!(&c.script_pubkey[0..2], &[0x51, 0x20]);
    assert!(c.address.starts_with("tb1p"));
    let xonly = bitcoin::key::XOnlyPublicKey::from_slice(&key()).unwrap();
    let secp = bitcoin::secp256k1::Secp256k1::new();
    let info = bitcoin::taproot::TaprootBuilder::new()
        .add_leaf(0, bitcoin::ScriptBuf::from_bytes(c.script.clone()))
        .unwrap()
        .finalize(&secp, xonly)
        .unwrap();
    let expected = bitcoin::ScriptBuf::new_p2tr(&secp, xonly, info.merkle_root());
    assert_eq!(c.script_pubkey, expected.into_bytes());
    let root = info.merkle_root().unwrap();
    assert_eq!(c.merkle_root, <bitcoin::taproot::TapNodeHash as bitcoin::hashes::Hash>::to_byte_array(root));
    let block = info
        .control_block(&(bitcoin::ScriptBuf::from_bytes(c.script.clone()), bitcoin::taproot::LeafVersion::TapScript))
        .unwrap();
    assert_eq!(c.control_block, block.serialize());
    let main = prepare_commit_reveal_config("dmt", &key(), &payload, BitcoinNetwork::Bitcoin).unwrap();
    assert!(main.address.starts_with("bc1p"));
    match prepare_commit_reveal_config("nft", &[0xffu8; 32], &payload, BitcoinNetwork::Testnet) {
        Err(Error::TransactionError(m)) => assert_eq!(m, "Failed to add script to Taproot path"),
        other => panic!("unexpected {:?}", other),
    }
}

#[test]
fn script_hashes() {
    let script = p2wpkh(4);
    let mut once = Sha256::digest(&script).to_vec();
    once.reverse();
    assert_eq!(electrum_scripthash(&script), hex::encode(&once));
}

#[test]
fn wallet_owns_parent_by_electrum_hash() {
    let script = p2wpkh(4);
    let mut once = Sha256::digest(&script).to_vec();
    once.reverse();
    let hash = hex::encode(&once);
    assert!(check_wallet_owns_parent(SubrealmClaimType::Direct, &hash, &script).is_ok());
    let mut twice = Sha256::digest(Sha256::digest(&script)).to_vec();
    twice.reverse();
    match check_wallet_owns_parent(SubrealmClaimType::Direct, &hex::encode(&twice), &script) {
        Err(Error::OwnershipError(m)) => assert_eq!(m, "Parent realm not owned by current wallet"),
        other => panic!("unexpected {:?}", other),
    }
    assert!(check_wallet_owns_parent(SubrealmClaimType::Rule, &hex::encode(&twice), &script).is_ok());
}

#[test]
fn parent_location_and_ownership() {
    let txid = "4a5e1e4baab89f3a32518a88c31bc87f618f76673e2cc77ab2127b7afdeda33b";
    let loc = format!("{}:1", txid);
    assert!(check_parent_location(&loc).is_ok());
    match check_parent_location("nocolon") {
        Err(Error::InvalidInput(m)) => assert_eq!(m, "Invalid parent location: nocolon"),
        other => panic!("unexpected {:?}", other),
    }
    match check_parent_location("a:b:c") {
        Err(Error::InvalidInput(m)) => assert_eq!(m, "Invalid parent location: OutPoint not in <txid>:<vout> format"),
        other => panic!("unexpected {:?}", other),
    }
    let o = parent_outpoint(&loc).unwrap();
    assert_eq!(o.vout, 1);
    let mut expected = hex::decode(txid).unwrap();
    expected.reverse();
    assert_eq!(o.txid.to_vec(), expected);
    match parent_outpoint("a:b:c") {
        Err(Error::InvalidInput(m)) => assert_eq!(m, "Invalid parent location: OutPoint not in <txid>:<vout> format"),
        other => panic!("unexpected {:?}", other),
    }
    match parent_outpoint("zz:1") {
        Err(Error::InvalidInput(m)) => assert!(m.starts_with("Invalid parent location: error parsing TXID")),
        other => panic!("unexpected {:?}", other),
    }
    assert!(check_ownership(SubrealmClaimType::Direct, "aa", "aa").is_ok());
    assert!(check_ownership(SubrealmClaimType::Rule, "aa", "bb").is_ok());
    match check_ownership(SubrealmClaimType::Direct, "aa", "bb") {
        Err(Error::OwnershipError(m)) => assert_eq!(m, "Parent realm not owned by current wallet"),
        other => panic!("unexpected {:?}", other),
    }
}

#[test]
fn parent_script_from_hex() {
    assert_eq!(parent_script("5120AbCd").unwrap(), vec![0x51, 0x20, 0xab, 0xcd]);
    let odd = bitcoin::ScriptBuf::from_hex("512").unwrap_err();
    match parent_script("512") {
        Err(Error::ScriptError(m)) => assert_eq!(m, format!("Failed to parse parent realm script: {}", odd)),
        other => panic!("unexpected {:?}", other),
    }
    match parent_script("zz") {
        Err(Error::ScriptError(m)) => assert!(m.starts_with("Failed to parse parent realm script: invalid hex character")),
        other => panic!("unexpected {:?}", other),
    }
}

#[test]
fn parent_key_from_its_script() {
    let mut script = vec![0x51, 0x20];
    script.extend_from_slice(&key());
    assert_eq!(parent_internal_key(&script).unwrap(), key());
    match parent_internal_key(&[0x51]) {
        Err(Error::TransactionError(m)) => assert_eq!(m, "Invalid parent script length"),
        other => panic!("unexpected {:?}", other),
    }
    match parent_internal_key(&[0x51, 0x20, 1, 2, 3]) {
        Err(Error::TransactionError(m)) => assert_eq!(m, "Failed to parse parent internal key: malformed public key"),
        other => panic!("unexpected {:?}", other),
    }
}

fn rule(p: &str, prices: Vec<Option<u64>>, bitworkc: Option<&str>) -> ParentRule {
    ParentRule { p: p.to_string(), prices, bitworkc: bitworkc.map(|s| s.to_string()) }
}

#[test]
fn rules_of_the_parent_realm() {
    let rules = vec![rule("[a-z]{3}", vec![Some(1000)], Some("ab")), rule(".*", vec![Some(0)], None), rule("x.*", vec![None], None)];
    assert_eq!(select_rule(&rules, "abc", SubrealmClaimType::Rule).unwrap(), 0);
    assert_eq!(select_rule(&rules, "anything", SubrealmClaimType::Direct).unwrap(), 0);
    match select_rule(&rules, "abcd", SubrealmClaimType::Rule) {
        Err(Error::InvalidInput(m)) => assert_eq!(m, "Invalid price in rule: 0 sats. Must be between 1 and 100000000 sats"),
        other => panic!("unexpected {:?}", other),
    }
    let strict = vec![rule("[a-z]{3}", vec![Some(1000)], None)];
    match select_rule(&strict, "abcd", SubrealmClaimType::Rule) {
        Err(Error::InvalidInput(m)) => assert_eq!(m, "No matching rule found"),
        other => panic!("unexpected {:?}", other),
    }
    match select_rule(&[], "abc", SubrealmClaimType::Direct) {
        Err(Error::InvalidInput(m)) => assert_eq!(m, "Parent realm has no rules"),
        other => panic!("unexpected {:?}", other),
    }
    let too_dear = vec![rule("a", vec![Some(100_000_001)], None)];
    match select_rule(&too_dear, "a", SubrealmClaimType::Rule) {
        Err(Error::InvalidInput(m)) => assert_eq!(m, "Invalid price in rule: 100000001 sats. Must be between 1 and 100000000 sats"),
        other => panic!("unexpected {:?}", other),
    }
    let c = SubrealmConfig::new("p.abc".to_string(), "id".to_string(), SubrealmClaimType::Rule);
    assert_eq!(apply_rule_bitwork(c, &rules[0]).bitworkc.as_deref(), Some("ab"));
    let d = SubrealmConfig::new("p.abc".to_string(), "id".to_string(), SubrealmClaimType::Direct);
    assert_eq!(apply_rule_bitwork(d, &rules[0]).bitworkc, None);
}

#[test]
fn subrealm_payload_arguments() {
    let c = SubrealmConfig::new("p.abc".to_string(), "parent-id".to_string(), SubrealmClaimType::Rule).with_bitworkc("00".to_string());
    let p = subrealm_payload(c, "abc".to_string(), 10, 20);
    assert_eq!(p.args.claim_type, "rule");
    assert_eq!(p.args.request_subrealm, "abc");
    assert_eq!(p.args.parent_realm, "parent-id");
    assert_eq!((p.args.time, p.args.nonce), (Some(10), Some(20)));
    assert_eq!(p.args.bitworkc.as_deref(), Some("00"));
    let d = SubrealmConfig::new("p.abc".to_string(), "parent-id".to_string(), SubrealmClaimType::Direct);
    let p = subrealm_payload(d, "abc".to_string(), 10, 20);
    assert_eq!(p.args.claim_type, "direct");
    assert_eq!((p.args.time, p.args.nonce), (None, None));
}

#[test]
fn subrealm_mint_plan() {
    let utxos = vec![utxo(1, 500), utxo(2, 20_000)];
    let plan = plan_mint_subrealm(SubrealmClaimType::Direct, 1000, 600, &utxos, 400, 300, &[100, 100]).unwrap();
    assert_eq!(plan.selected.len(), 1);
    assert_eq!(plan.selected[0].outpoint.txid, [2; 32]);
    assert_eq!(plan.commit_output_value, 400 + 1000 + 600);
    assert_eq!(plan.change, Some(20_000 - 300 - 2000));
    assert_eq!(plan.parent_return_value, Some(600));
    let rule_plan = plan_mint_subrealm(SubrealmClaimType::Rule, 1000, 600, &utxos, 400, 300, &[100, 100]).unwrap();
    assert_eq!(rule_plan.parent_return_value, None);
    match plan_mint_subrealm(SubrealmClaimType::Rule, 1000, 600, &[], 400, 300, &[]) {
        Err(Error::InvalidAmount(m)) => assert_eq!(m, "No UTXOs available"),
        other => panic!("unexpected {:?}", other),
    }
    match select_single_utxo(&utxos, 1_000_000, &[1, 1]) {
        Err(Error::InvalidAmount(m)) => assert_eq!(m, "No single UTXO with sufficient funds found"),
        other => panic!("unexpected {:?}", other),
    }

    let commit = commit_transaction(1, &plan.selected, 0, plan.commit_output_value, &p2wpkh(7), plan.change, &p2wpkh(8));
    let parent = OutPoint { txid: [0xaa; 32], vout: 5 };
    let reveal = subrealm_reveal_transaction(commit.txid_bytes(), &plan, parent, &p2wpkh(8), &p2wpkh(6));
    let r: bitcoin::Transaction = deserialize(reveal.bytes()).unwrap();
    assert_eq!(r.version.0, 1);
    assert_eq!(r.input.len(), 2);
    assert_eq!(r.input[1].previous_output.vout, 5);
    assert_eq!(r.output.len(), 2);
    assert_eq!(r.output[0].value.to_sat(), 1000);
    assert_eq!(r.output[1].value.to_sat(), 600);
    let reveal = subrealm_reveal_transaction(commit.txid_bytes(), &rule_plan, parent, &p2wpkh(8), &p2wpkh(6));
    assert_eq!((reveal.input_count(), reveal.output_count()), (1, 1));
}

#[test]
fn requested_part_of_a_subrealm_name() {
    let ok = SubrealmConfig::new("parent.child".to_string(), "id".to_string(), SubrealmClaimType::Rule);
    assert_eq!(requested_subrealm_part(&ok).unwrap(), "child");
    let deep = SubrealmConfig::new("a.b.c-d".to_string(), "id".to_string(), SubrealmClaimType::Direct);
    assert_eq!(requested_subrealm_part(&deep).unwrap(), "c-d");
    let no_dot = SubrealmConfig::new("parent".to_string(), "id".to_string(), SubrealmClaimType::Rule);
    match requested_subrealm_part(&no_dot) {
        Err(Error::RealmNameInvalid(m)) => assert_eq!(m, "Subrealm must contain a dot separator"),
        other => panic!("unexpected {:?}", other),
    }
    let caps = SubrealmConfig::new("parent.Child".to_string(), "id".to_string(), SubrealmClaimType::Rule);
    match requested_subrealm_part(&caps) {
        Err(Error::RealmNameInvalid(m)) => {
            assert_eq!(m, "Subrealm name can only contain lowercase letters, numbers, and hyphens")
        }
        other => panic!("unexpected {:?}", other),
    }
}
