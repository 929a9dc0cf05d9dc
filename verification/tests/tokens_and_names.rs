use atomicals::errors::Error;
use atomicals::types::amount::Amount;
use atomicals::types::arc20::{Arc20Config, Arc20Token};
use atomicals::types::atomicals::{AtomicalsOperation, AtomicalsPayload};
use atomicals::types::mint::BitworkInfo;
use atomicals::types::realm::RealmConfig;
use atomicals::types::subrealm::{last_name_part, SubrealmClaimType, SubrealmConfig};
use atomicals::types::wasm::{WasmBitworkInfo, WasmRealmConfig};
use serde_json::Value;

#[test]
fn amounts() {
    let a = Amount::from_sat(1500);
    assert_eq!(a.to_sat(), 1500);
    assert_eq!(a.add(Amount::from_sat(500)).to_sat(), 2000);
    assert_eq!(a.add(Amount::from_sat(500)).sub(Amount::from_sat(500)), a);
    let mut b = Amount::zero();
    b.add_assign(Amount::bitcoin());
    b.sub_assign(Amount::satoshi());
    assert_eq!(b.to_sat(), 99_999_999);
    assert_eq!(Amount::from_sat(u64::MAX).checked_add(Amount::satoshi()), None);
    assert_eq!(Amount::from_sat(1).checked_add(Amount::from_sat(2)), Some(Amount::from_sat(3)));
    assert_eq!(Amount::from_sat(1000).to_string(), "1000 sats");
}

#[test]
fn arc20_config_rules() {
    let c = Arc20Config::new("atom".to_string(), Amount::from_sat(1000)).unwrap();
    assert_eq!(c.tick, "atom");
    assert!(!c.requires_mining());
    match Arc20Config::new("AB".to_string(), Amount::from_sat(1)) {
        Err(Error::InvalidTicker(m)) => assert_eq!(m, "Invalid ticker format: AB"),
        other => panic!("unexpected {:?}", other),
    }
    match Arc20Config::new("abc".to_string(), Amount::zero()) {
        Err(Error::InvalidAmount(m)) => assert_eq!(m, "Mint amount cannot be zero"),
        other => panic!("unexpected {:?}", other),
    }
    let c = c.with_bitworkc("ab12".to_string()).unwrap();
    assert!(c.requires_mining());
    match c.clone().with_bitworkr("xyz".to_string()) {
        Err(Error::InvalidBitwork(m)) => assert_eq!(m, "Invalid bitwork format: xyz"),
        other => panic!("unexpected {:?}", other),
    }
    let c = c.with_meta("k".to_string(), Value::from(1)).with_meta("k".to_string(), Value::from(2));
    assert_eq!(c.meta.len(), 1);
    assert_eq!(c.meta[0].1, Value::from(2));
}

#[test]
fn holders_read_back_what_was_credited() {
    let c = Arc20Config::new("tok".to_string(), Amount::from_sat(10)).unwrap();
    let mut t = Arc20Token::new(c);
    t.add_holder("alice".to_string(), Amount::from_sat(10)).unwrap();
    t.add_holder("bob".to_string(), Amount::from_sat(5)).unwrap();
    t.add_holder("alice".to_string(), Amount::from_sat(7)).unwrap();
    assert_eq!(t.get_holder_balance("alice").to_sat(), 17);
    assert_eq!(t.get_holder_balance("bob").to_sat(), 5);
    assert_eq!(t.get_holder_balance("carol").to_sat(), 0);
    assert_eq!(t.minted_supply.to_sat(), 22);
    assert_eq!(t.mint_count, 3);
    let sum: u64 = t.holders.iter().map(|(_, a)| a.to_sat()).sum();
    assert_eq!(sum, t.minted_supply.to_sat());
    t.update_mint_phase();
    assert_eq!(t.mint_phase, 3);
    assert!(t.can_mint(0));
    assert_eq!(t.remaining_supply().to_sat(), u64::MAX);
}

#[test]
fn refused_credit_changes_nothing() {
    let c = Arc20Config::new("tok".to_string(), Amount::from_sat(10)).unwrap();
    let mut t = Arc20Token::new(c);
    t.add_holder("alice".to_string(), Amount::from_sat(u64::MAX - 1)).unwrap();
    match t.add_holder("bob".to_string(), Amount::from_sat(2)) {
        Err(Error::InvalidAmount(m)) => assert_eq!(m, "Supply overflow"),
        other => panic!("unexpected {:?}", other),
    }
    assert_eq!(t.minted_supply.to_sat(), u64::MAX - 1);
    assert_eq!(t.mint_count, 1);
    assert_eq!(t.get_holder_balance("bob").to_sat(), 0);
    let mut u = Arc20Token::new(Arc20Config::new("tok".to_string(), Amount::from_sat(10)).unwrap());
    u.minted_supply = Amount::zero();
    u.holders.push(("dave".to_string(), Amount::from_sat(u64::MAX)));
    match u.add_holder("dave".to_string(), Amount::from_sat(1)) {
        Err(Error::InvalidAmount(m)) => assert_eq!(m, "Holder amount overflow"),
        other => panic!("unexpected {:?}", other),
    }
    assert_eq!(u.get_holder_balance("dave").to_sat(), u64::MAX);
}

#[test]
fn payloads() {
    let p = AtomicalsPayload::new_ft("TEST".to_string(), 21_000_000);
    assert!(matches!(p.op, AtomicalsOperation::Ft));
    assert_eq!(p.tick.as_deref(), Some("TEST"));
    assert_eq!(p.amt, Some(21_000_000));
    let p = AtomicalsPayload::new_mint_ft("TEST".to_string()).with_meta(Value::from("m")).with_args(Value::from(1))
        .with_init(Value::from(2)).with_ctx(Value::from(3));
    assert_eq!(p.amt, None);
    assert_eq!(p.meta, Some(Value::from("m")));
    assert_eq!(p.ctx, Some(Value::from(3)));
    assert_eq!(AtomicalsOperation::Seal.name(), "sl");
    assert_eq!(AtomicalsOperation::Dmt.name(), "dmt");
}

#[test]
fn realm_names() {
    assert!(RealmConfig::new("my-realm".to_string()).validate_name().is_ok());
    assert_eq!(RealmConfig::new("ab".to_string()).validate_name(), Err("Realm name must be between 3 and 63 characters"));
    assert_eq!(
        RealmConfig::new("My-Realm".to_string()).validate_name(),
        Err("Realm name can only contain lowercase letters, numbers, and hyphens")
    );
    assert_eq!(RealmConfig::new("-abc".to_string()).validate_name(), Err("Realm name cannot start or end with a hyphen"));
    assert_eq!(RealmConfig::new("ab--c".to_string()).validate_name(), Err("Realm name cannot contain consecutive hyphens"));
    let r = RealmConfig::new("abc".to_string())
        .with_bitworkc("00".to_string())
        .with_bitworkr("11".to_string())
        .with_container("box".to_string())
        .with_parent("p".to_string(), Some("o".to_string()))
        .with_sats_output(1000);
    assert_eq!(r.sats_output, 1000);
    assert_eq!(r.parent.as_deref(), Some("p"));
    assert_eq!(RealmConfig::new("abc".to_string()).sats_output, 546);
}

#[test]
fn realm_config_travels_both_ways() {
    let r = RealmConfig::new("abc".to_string()).with_container("box".to_string()).with_sats_output(700);
    let w: WasmRealmConfig = r.clone().into();
    assert_eq!(w.name(), "abc");
    assert_eq!(w.container().as_deref(), Some("box"));
    assert_eq!(w.sats_output(), 700);
    let back: RealmConfig = w.into();
    assert_eq!(back.name, r.name);
    assert_eq!(back.container, r.container);
    assert_eq!(back.sats_output, r.sats_output);
    let w = WasmRealmConfig::new("Bad".to_string());
    assert_eq!(
        w.validate(),
        Err("Invalid realm name: Realm name can only contain lowercase letters, numbers, and hyphens".to_string())
    );
}

#[test]
fn subrealm_names() {
    assert_eq!(SubrealmClaimType::Direct.as_str(), "direct");
    assert_eq!(SubrealmClaimType::Rule.as_str(), "rule");
    assert_eq!(last_name_part("a.b.c"), "c");
    assert_eq!(last_name_part("abc"), "abc");
    let ok = SubrealmConfig::new("parent.child".to_string(), "id".to_string(), SubrealmClaimType::Rule);
    assert!(ok.validate_name().is_ok());
    assert_eq!(ok.sats_output, 546);
    let no_dot = SubrealmConfig::new("parent".to_string(), "id".to_string(), SubrealmClaimType::Rule);
    assert_eq!(no_dot.validate_name(), Err("Subrealm must contain a dot separator"));
    let empty = SubrealmConfig::new("parent.".to_string(), "id".to_string(), SubrealmClaimType::Rule);
    assert_eq!(empty.validate_name(), Err("Subrealm name must be between 1 and 64 characters"));
    let caps = SubrealmConfig::new("parent.Child".to_string(), "id".to_string(), SubrealmClaimType::Rule);
    assert_eq!(caps.validate_name(), Err("Subrealm name can only contain lowercase letters, numbers, and hyphens"));
    let hyphen = SubrealmConfig::new("parent.child-".to_string(), "id".to_string(), SubrealmClaimType::Rule);
    assert_eq!(hyphen.validate_name(), Err("Subrealm name cannot start or end with a hyphen"));
}

#[test]
fn bitwork_reading() {
    let d = BitworkInfo::new(String::new());
    assert_eq!((d.prefix.as_str(), d.ext.clone(), d.difficulty), ("0000", None, 16));
    let b = BitworkInfo::new("abcd".to_string());
    assert_eq!((b.prefix.as_str(), b.ext.clone(), b.difficulty), ("abcd", None, 16));
    let b = BitworkInfo::new("ab:cd".to_string());
    assert_eq!((b.prefix.as_str(), b.ext.as_deref(), b.difficulty), ("ab", Some("cd"), 8));
    let b = BitworkInfo::new("a:b:c".to_string());
    assert_eq!((b.prefix.as_str(), b.ext.clone(), b.difficulty), ("0000", None, 16));
    let b = BitworkInfo::new("xyz".to_string());
    assert_eq!((b.prefix.as_str(), b.ext.clone(), b.difficulty), ("0000", None, 16));
}

#[test]
fn bitwork_matching() {
    let b = BitworkInfo::new("ab".to_string());
    assert!(b.matches("abcdef"));
    assert!(!b.matches("bacdef"));
    assert!(!b.matches("a"));
    let b = b.with_ext("cd".to_string());
    assert!(b.matches("abcdef"));
    assert!(!b.matches("abce"));
    assert!(!b.matches("abc"));
}

#[test]
fn bitwork_travels_unchanged() {
    let b = BitworkInfo::new("ab:cd".to_string());
    let w = WasmBitworkInfo::from_bitwork_info(&b);
    assert_eq!(w.get_difficulty(), "8");
    assert_eq!(w.get_prefix(), "ab");
    assert_eq!(w.get_ext().as_deref(), Some("cd"));
    let back = w.to_bitwork_info();
    assert_eq!((back.prefix, back.ext, back.difficulty), (b.prefix, b.ext, b.difficulty));
    let mut w = WasmBitworkInfo::new("not a number".to_string(), "00".to_string());
    w.set_ext(Some("1".to_string()));
    let b = w.to_bitwork_info();
    assert_eq!((b.prefix.as_str(), b.ext.as_deref(), b.difficulty), ("00", Some("1"), 16));
    assert_eq!(WasmBitworkInfo::new("+12".to_string(), "0".to_string()).to_bitwork_info().difficulty, 12);
}

#[test]
fn error_messages() {
    assert_eq!(Error::InvalidAmount("x".to_string()).message(), "Invalid amount: x");
    assert_eq!(Error::NetworkError("down".to_string()).message(), "Network error: down");
    assert_eq!(Error::SerdeJsonError("bad".to_string()).message(), "JSON error: bad");
}
