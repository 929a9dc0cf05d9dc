use atomicals::entry::{mining_options_from, parse_claim_type, parse_json_field, subrealm_request};
use atomicals::errors::Error;
use atomicals::types::subrealm::SubrealmClaimType;
use atomicals::chain::BitcoinNetwork;
use atomicals::wallet::{available_utxos, listing_script, normalized_location, wallet_script, ListedUtxo};

const TXID: &str = "4a5e1e4baab89f3a32518a88c31bc87f618f76673e2cc77ab2127b7afdeda33b";

fn entry(txid: &str, vout: u32, value: u64, atomicals: usize) -> ListedUtxo {
    ListedUtxo { height: 7, txid: txid.to_string(), value, vout, index: vout, atomical_entries: atomicals }
}

#[test]
fn only_outputs_without_atomicals_are_offered() {
    let script = vec![0x00, 0x14, 1, 2, 3, 4, 5, 6, 7, 8, 9, 10, 11, 12, 13, 14, 15, 16, 17, 18, 19, 20];
    let entries = vec![
        entry(TXID, 0, 1000, 0),
        entry(TXID, 1, 2000, 2),
        entry(TXID, 2, 3000, 0),
    ];
    let utxos = available_utxos(true, &entries, &script).unwrap();
    assert_eq!(utxos.len(), 2);
    assert_eq!(utxos[0].txout.value, 1000);
    assert_eq!(utxos[1].txout.value, 3000);
    assert_eq!(utxos[1].outpoint.vout, 2);
    assert_eq!(utxos[0].height, Some(7));
    assert_eq!(utxos[0].txout.script_pubkey, script);
    let mut id = hex::decode(TXID).unwrap();
    id.reverse();
    assert_eq!(utxos[0].outpoint.txid.to_vec(), id);
}

#[test]
fn listing_errors() {
    match available_utxos(false, &[], &[]) {
        Err(Error::NetworkError(m)) => assert_eq!(m, "UTXO API request failed"),
        other => panic!("unexpected {:?}", other),
    }
    let entries = vec![entry("abcd", 0, 1, 1), entry("nothex", 0, 1, 0)];
    match available_utxos(true, &entries, &[]) {
        Err(Error::TransactionError(m)) => {
            let e = <bitcoin::Txid as std::str::FromStr>::from_str("nothex").unwrap_err();
            assert_eq!(m, format!("Invalid txid: {}", e));
        }
        other => panic!("unexpected {:?}", other),
    }
    // an unparsable id on an output that carries Atomicals is never read
    let entries = vec![entry("abcd", 0, 1, 1), entry(TXID, 0, 1, 0)];
    assert_eq!(available_utxos(true, &entries, &[]).unwrap().len(), 1);
}

#[test]
fn locations_are_written_txid_colon_index() {
    assert_eq!(normalized_location("abc:1", "ignored", 9), "abc:1");
    assert_eq!(normalized_location("abc", "deadbeef", 12), "deadbeef:12");
}

#[test]
fn mining_options_from_arguments() {
    assert!(mining_options_from(None, None).is_none());
    let o = mining_options_from(Some(8), None).unwrap();
    assert_eq!((o.num_workers, o.batch_size), (8, 1000));
    let o = mining_options_from(None, Some(50)).unwrap();
    assert_eq!((o.num_workers, o.batch_size), (4, 50));
}

#[test]
fn claim_types_by_name() {
    assert_eq!(parse_claim_type("direct"), Some(SubrealmClaimType::Direct));
    assert_eq!(parse_claim_type("RULE"), Some(SubrealmClaimType::Rule));
    assert_eq!(parse_claim_type("Rule"), Some(SubrealmClaimType::Rule));
    assert_eq!(parse_claim_type("rules"), None);
}

#[test]
fn json_fields() {
    assert!(parse_json_field("meta", None).unwrap().is_none());
    let v = parse_json_field("meta", Some("{\"a\":1}".to_string())).unwrap().unwrap();
    assert_eq!(v["a"], serde_json::Value::from(1));
    assert_eq!(v, serde_json::from_str::<serde_json::Value>("{\"a\":1}").unwrap());
    let err = serde_json::from_str::<serde_json::Value>("{oops").unwrap_err().to_string();
    assert_eq!(parse_json_field("ctx", Some("{oops".to_string())), Err(format!("Invalid ctx JSON: {}", err)));
}

#[test]
fn subrealm_requests() {
    let c = subrealm_request(
        "parent.child".to_string(),
        "pid".to_string(),
        "Direct",
        600,
        Some("00".to_string()),
        None,
        None,
        Some("{}".to_string()),
        None,
        Some("[1]".to_string()),
    )
    .unwrap();
    assert_eq!(c.claim_type, SubrealmClaimType::Direct);
    assert_eq!(c.sats_output, 600);
    assert_eq!(c.bitworkc.as_deref(), Some("00"));
    assert!(c.meta.is_some() && c.ctx.is_none() && c.init.is_some());
    assert!(c.fee_rate.is_none());
    let all = subrealm_request(
        "parent.child".to_string(),
        "pid".to_string(),
        "rule",
        546,
        None,
        None,
        None,
        Some("{\"m\":1}".to_string()),
        Some("[2,3]".to_string()),
        Some("\"i\"".to_string()),
    )
    .unwrap();
    assert_eq!(all.meta, Some(serde_json::from_str::<serde_json::Value>("{\"m\":1}").unwrap()));
    assert_eq!(all.ctx, Some(serde_json::from_str::<serde_json::Value>("[2,3]").unwrap()));
    assert_eq!(all.init, Some(serde_json::Value::from("i")));
    assert_eq!(
        subrealm_request("a.b".to_string(), "p".to_string(), "other", 1, None, None, None, None, None, None).unwrap_err(),
        "Invalid claim type. Must be 'direct' or 'rule'"
    );
    let err = serde_json::from_str::<serde_json::Value>("nope").unwrap_err().to_string();
    assert_eq!(
        subrealm_request("a.b".to_string(), "p".to_string(), "rule", 1, None, None, None, Some("nope".to_string()), Some("x".to_string()), None)
            .unwrap_err(),
        format!("Invalid meta JSON: {}", err)
    );
}

#[test]
fn wallet_addresses_read_as_scripts() {
    let mut script = vec![0x00, 0x14];
    script.extend_from_slice(&[0x42; 20]);
    let testnet = bitcoin::Address::from_script(bitcoin::Script::from_bytes(&script), bitcoin::Network::Testnet)
        .unwrap()
        .to_string();
    let mainnet = bitcoin::Address::from_script(bitcoin::Script::from_bytes(&script), bitcoin::Network::Bitcoin)
        .unwrap()
        .to_string();
    assert_eq!(wallet_script(&testnet, BitcoinNetwork::Testnet).unwrap(), script);
    assert_eq!(listing_script(&testnet, BitcoinNetwork::Testnet).unwrap(), script);
    assert_eq!(wallet_script(&mainnet, BitcoinNetwork::Bitcoin).unwrap(), script);
    match wallet_script(&mainnet, BitcoinNetwork::Testnet) {
        Err(Error::NetworkError(_)) => {}
        other => panic!("unexpected {:?}", other),
    }
    match listing_script(&mainnet, BitcoinNetwork::Testnet) {
        Err(Error::AddressError(m)) => assert!(m.starts_with("Invalid network: ")),
        other => panic!("unexpected {:?}", other),
    }
    let parse_err = "not an address".parse::<bitcoin::Address<bitcoin::address::NetworkUnchecked>>().unwrap_err();
    match wallet_script("not an address", BitcoinNetwork::Testnet) {
        Err(Error::AddressError(m)) => assert_eq!(m, parse_err.to_string()),
        other => panic!("unexpected {:?}", other),
    }
    match listing_script("not an address", BitcoinNetwork::Testnet) {
        Err(Error::AddressError(m)) => assert_eq!(m, format!("Invalid address: {}", parse_err)),
        other => panic!("unexpected {:?}", other),
    }
}
