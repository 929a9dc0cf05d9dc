//! The decisions of minting a subrealm: where the parent realm sits and who
//! owns it, which of its rules the name falls under, the payload, and what
//! the commit and reveal transactions pay. Wallet round trips, fee rates and
//! signing stay with the caller.

use vstd::prelude::*;
use crate::chain::{tx_input_count, address_text, outpoint_parse, script_from_hex, script_hex_error, parse_outpoint, parse_xonly_key, tx_encoding, script_address, taproot_leaf_output, taproot_leaf_spend, taproot_output, taproot_spend, xonly_key_valid, BitcoinNetwork};
use crate::codec::{hex_decoded, hex_encode, hex_text, reversed};
use crate::utils::script::{append_mint_update_reveal_script, reveal_script};
use vstd::utf8::encode_utf8;
use crate::digest::{bitcoin_sha256, sha256_hash};
use crate::errors::{Error, Result};
use crate::operations::mint_ft::{commit_change, copy_bytes, kept_change};
use crate::pattern::{full_match, regex_full_match};
use crate::text::{colon_count, lemma_colon_count_has_char, char_len, concat, contains_char, decimal_string, decimal_text, has_char, str_eq, to_owned_string};
use crate::types::realm::DUST_LIMIT;
use crate::types::subrealm::{last_name_part, subrealm_name_violation, subrealm_part, SubrealmClaimType, SubrealmConfig};
use crate::utils::tx_size::script_type_of;
use crate::utils::tx_size::ScriptType;
use crate::wallet::{same_utxo, Utxo};
use crate::types::transaction::{OutPoint, Transaction, TxOut};

verus! {

/// The reveal script of a commit-reveal pair and the taproot output that
/// commits to it.
#[derive(Debug)]
pub struct CommitRevealConfig {
    /// The reveal script, the one leaf of the script tree.
    pub script: Vec<u8>,
    /// The pay-to-taproot output script that the commit transaction pays.
    pub script_pubkey: Vec<u8>,
    /// That output's address.
    pub address: String,
    /// The merkle root of the script tree.
    pub merkle_root: [u8; 32],
    /// The serialized control block that spends the reveal script.
    pub control_block: Vec<u8>,
}

/// Builds the reveal script of `op_type` carrying `atomicals_payload` for the
/// internal key, the taproot output (and its address on `network`) whose
/// script tree is that script alone, and the merkle root and control block
/// that spend the script.
pub fn prepare_commit_reveal_config(
    op_type: &str,
    child_node_xonly_pubkey: &[u8; 32],
    atomicals_payload: &[u8],
    network: BitcoinNetwork,
) -> (r: Result<CommitRevealConfig>)
    requires
        encode_utf8(op_type@).len() < 0x1_0000_0000,
    ensures
        ({
            let script = reveal_script(encode_utf8(op_type@), child_node_xonly_pubkey@, atomicals_payload@);
            match taproot_leaf_output(child_node_xonly_pubkey@, script) {
                Some(out) => match taproot_leaf_spend(child_node_xonly_pubkey@, script) {
                    Some((root, block)) => r matches Ok(c) && c.script@ == script && c.script_pubkey@ == out
                        && c.address@ == address_text(out, network)
                        && c.merkle_root@ == root && c.control_block@ == block,
                    None => r matches Err(Error::TransactionError(m)) && m@ == "Failed to create control block"@,
                },
                None => r matches Err(Error::TransactionError(m)) && m@ == "Failed to add script to Taproot path"@,
            }
        }),
{
    let script = match append_mint_update_reveal_script(op_type, child_node_xonly_pubkey, atomicals_payload) {
        Ok(s) => s,
        Err(_) => return Err(Error::ScriptError(to_owned_string("Failed to build reveal script"))),
    };
    let script_pubkey = match taproot_output(child_node_xonly_pubkey, script.as_slice()) {
        Some(s) => s,
        None => return Err(Error::TransactionError(to_owned_string("Failed to add script to Taproot path"))),
    };
    let address = match script_address(script_pubkey.as_slice(), network) {
        Some(a) => a,
        None => return Err(Error::AddressError(to_owned_string("Unrecognized script"))),
    };
    let (merkle_root, control_block) = match taproot_spend(child_node_xonly_pubkey, script.as_slice()) {
        Some(p) => p,
        None => return Err(Error::TransactionError(to_owned_string("Failed to create control block"))),
    };
    Ok(CommitRevealConfig { script, script_pubkey, address, merkle_root, control_block })
}

/// `b` back to front.
fn reverse_bytes(b: &Vec<u8>) -> (r: Vec<u8>)
    ensures
        r@ == reversed(b@),
{
    let n = b.len();
    let mut r: Vec<u8> = Vec::new();
    let mut i: usize = 0;
    while i < n
        invariant
            n == b@.len(),
            i <= n,
            r@.len() == i,
            forall|j: int| 0 <= j < i ==> #[trigger] r@[j] == b@[n - 1 - j],
        decreases n - i,
    {
        r.push(b[n - 1 - i]);
        i = i + 1;
    }
    assert(r@ =~= reversed(b@));
    r
}

/// The parent realm's output script, from the hex text that the indexer gives.
pub fn parent_script(script_hex: &str) -> (r: Result<Vec<u8>>)
    ensures
        match hex_decoded(encode_utf8(script_hex@)) {
            Some(b) => r matches Ok(v) && v@ == b,
            None => r matches Err(Error::ScriptError(m))
                && m@ == "Failed to parse parent realm script: "@ + script_hex_error(script_hex@),
        },
{
    match script_from_hex(script_hex) {
        Ok(v) => Ok(v),
        Err(e) => Err(Error::ScriptError(concat("Failed to parse parent realm script: ", e.as_str()))),
    }
}

/// The internal key of the parent realm's taproot output: the script's bytes
/// after the first two (`OP_1` and the push of 32 bytes), read as an x-only key.
pub fn parent_internal_key(parent_script: &[u8]) -> (r: Result<[u8; 32]>)
    ensures
        parent_script@.len() < 2 ==> (r matches Err(Error::TransactionError(m)) && m@ == "Invalid parent script length"@),
        parent_script@.len() >= 2 ==> ({
            let k = parent_script@.subrange(2, parent_script@.len() as int);
            if k.len() == 32 && xonly_key_valid(k) {
                r matches Ok(key) && key@ == k
            } else {
                r matches Err(Error::TransactionError(m)) && m@ == "Failed to parse parent internal key: malformed public key"@
            }
        }),
{
    if parent_script.len() < 2 {
        return Err(Error::TransactionError(to_owned_string("Invalid parent script length")));
    }
    let rest = vstd::slice::slice_subrange(parent_script, 2, parent_script.len());
    match parse_xonly_key(rest) {
        Some(k) => Ok(k),
        None => Err(Error::TransactionError(to_owned_string("Failed to parse parent internal key: malformed public key"))),
    }
}

/// The Electrum script hash of an output script: its SHA-256, bytes reversed, in hex.
pub fn electrum_scripthash(script: &[u8]) -> (r: String)
    ensures
        r@ == hex_text(reversed(bitcoin_sha256(script@))),
{
    let h = sha256_hash(script);
    hex_encode(reverse_bytes(&h).as_slice())
}

/// Checks that the parent location reads `<txid>:<vout>`: it has a colon,
/// and only one.
pub fn check_parent_location(location: &str) -> (r: Result<()>)
    ensures
        !has_char(location@, ':') ==> (r matches Err(Error::InvalidInput(m)) && m@ == "Invalid parent location: "@ + location@),
        has_char(location@, ':') && colon_count(location@) != 1 ==> (r matches Err(Error::InvalidInput(m))
            && m@ == "Invalid parent location: OutPoint not in <txid>:<vout> format"@),
        r is Ok <==> colon_count(location@) == 1,
{
    let n = char_len(location);
    let mut count: usize = 0;
    let mut i: usize = 0;
    while i < n
        invariant
            n == location@.len(),
            i <= n,
            count == colon_count(location@.subrange(0, i as int)),
            count <= i,
        decreases n - i,
    {
        proof {
            assert(location@.subrange(0, i + 1).drop_last() =~= location@.subrange(0, i as int));
        }
        if crate::text::char_at(location, i) == ':' {
            count = count + 1;
        }
        i = i + 1;
    }
    proof {
        assert(location@.subrange(0, n as int) =~= location@);
        lemma_colon_count_has_char(location@);
    }
    if count == 0 {
        return Err(Error::InvalidInput(concat("Invalid parent location: ", location)));
    }
    if count != 1 {
        return Err(Error::InvalidInput(to_owned_string("Invalid parent location: OutPoint not in <txid>:<vout> format")));
    }
    Ok(())
}

/// The outpoint of the parent realm, read from its location `<txid>:<vout>`.
pub fn parent_outpoint(location: &str) -> (r: Result<OutPoint>)
    ensures
        match outpoint_parse(location@) {
            Ok(o) => r == Ok::<OutPoint, Error>(o),
            Err(e) => r matches Err(Error::InvalidInput(m)) && m@ == "Invalid parent location: "@ + e,
        },
{
    let o = match parse_outpoint(location) {
        Ok(o) => o,
        Err(e) => return Err(Error::InvalidInput(concat("Invalid parent location: ", e.as_str()))),
    };
    match check_parent_location(location) {
        Ok(()) => Ok(o),
        Err(e) => Err(e),
    }
}

/// Checks that a direct claim's parent realm sits at the wallet's script:
/// the parent's script hash must be the Electrum script hash of
/// `wallet_script`.
pub fn check_wallet_owns_parent(claim_type: SubrealmClaimType, parent_scripthash: &str, wallet_script: &[u8]) -> (r: Result<()>)
    ensures
        ({
            let mine = hex_text(reversed(bitcoin_sha256(wallet_script@)));
            &&& claim_type == SubrealmClaimType::Direct && parent_scripthash@ != mine
                ==> (r matches Err(Error::OwnershipError(m)) && m@ == "Parent realm not owned by current wallet"@)
            &&& (r is Ok <==> !(claim_type == SubrealmClaimType::Direct && parent_scripthash@ != mine))
        }),
{
    let mine = electrum_scripthash(wallet_script);
    check_ownership(claim_type, parent_scripthash, mine.as_str())
}

/// The part of a subrealm request's name that is minted (after the last
/// dot), where the name passes the subrealm name rules; otherwise the rule
/// it breaks, as an invalid realm name.
pub fn requested_subrealm_part(config: &SubrealmConfig) -> (r: Result<String>)
    ensures
        match subrealm_name_violation(config.name@) {
            None => r matches Ok(p) && p@ == subrealm_part(config.name@),
            Some(m) => r matches Err(Error::RealmNameInvalid(e)) && e@ == m,
        },
{
    match config.validate_name() {
        Ok(()) => Ok(last_name_part(config.name.as_str())),
        Err(m) => Err(Error::RealmNameInvalid(to_owned_string(m))),
    }
}

/// A direct claim needs the parent realm to sit at the wallet's script.
pub fn check_ownership(claim_type: SubrealmClaimType, parent_scripthash: &str, wallet_scripthash: &str) -> (r: Result<()>)
    ensures
        claim_type == SubrealmClaimType::Direct && parent_scripthash@ != wallet_scripthash@
            ==> (r matches Err(Error::OwnershipError(m)) && m@ == "Parent realm not owned by current wallet"@),
        r is Ok <==> !(claim_type == SubrealmClaimType::Direct && parent_scripthash@ != wallet_scripthash@),
{
    if claim_type == SubrealmClaimType::Direct && !str_eq(parent_scripthash, wallet_scripthash) {
        return Err(Error::OwnershipError(to_owned_string("Parent realm not owned by current wallet")));
    }
    Ok(())
}

/// A rule of the parent realm as a mint reads it: the name pattern, the
/// price (`v`, where it is an unsigned integer) of each payment output, and
/// the commit bitwork.
#[derive(Debug, Clone)]
pub struct ParentRule {
    pub p: String,
    pub prices: Vec<Option<u64>>,
    pub bitworkc: Option<String>,
}

/// Largest price a rule may ask: one bitcoin.
pub const MAX_RULE_PRICE: u64 = 100_000_000;

/// The first price out of the range 1 to 100000000 satoshis, if any.
pub open spec fn first_bad_price(prices: Seq<Option<u64>>) -> Option<u64>
    decreases prices.len(),
{
    if prices.len() == 0 {
        None
    } else {
        match prices[0] {
            Some(v) => if v == 0 || v > MAX_RULE_PRICE { Some(v) } else { first_bad_price(prices.drop_first()) },
            None => first_bad_price(prices.drop_first()),
        }
    }
}

/// How the search for a rule ends.
pub enum RuleSearch {
    /// Rule `i` matches and its prices are in range.
    Matched(int),
    /// The first matching rule asks price `v`, out of range.
    BadPrice(u64),
    /// No rule matches.
    NoMatch,
}

/// The first rule from `i` on whose pattern matches `part` as a whole.
pub open spec fn rule_search(rules: Seq<ParentRule>, part: Seq<char>, i: int) -> RuleSearch
    decreases rules.len() - i,
{
    if i < 0 || i >= rules.len() {
        RuleSearch::NoMatch
    } else if full_match(rules[i].p@, part) == Some(true) {
        match first_bad_price(rules[i].prices@) {
            Some(v) => RuleSearch::BadPrice(v),
            None => RuleSearch::Matched(i),
        }
    } else {
        rule_search(rules, part, i + 1)
    }
}

/// The message of an out-of-range price.
pub open spec fn bad_price_message(v: u64) -> Seq<char> {
    "Invalid price in rule: "@ + decimal_text(v as nat) + " sats. Must be between 1 and 100000000 sats"@
}

/// A rule's prices are refused exactly when some priced output asks 0
/// satoshis or more than 100000000; the price reported is one of the
/// rule's prices, and it is out of that range.
pub proof fn law_rule_prices_in_range(prices: Seq<Option<u64>>)
    ensures
        first_bad_price(prices) is None
            <==> forall|k: int| 0 <= k < prices.len() ==> (#[trigger] prices[k] matches Some(v) ==> 1 <= v <= 100_000_000),
        first_bad_price(prices) matches Some(v) ==> (v == 0 || v > 100_000_000)
            && exists|k: int| 0 <= k < prices.len() && #[trigger] prices[k] == Some(v),
    decreases prices.len(),
{
    if prices.len() > 0 {
        let rest = prices.drop_first();
        law_rule_prices_in_range(rest);
        assert forall|k: int| 0 < k < prices.len() implies #[trigger] prices[k] == rest[k - 1] by {}
        if first_bad_price(rest) is None && (forall|k: int| 0 <= k < rest.len() ==> (#[trigger] rest[k] matches Some(v) ==> 1 <= v <= 100_000_000)) {
            assert forall|k: int| 0 < k < prices.len() implies (#[trigger] prices[k] matches Some(v) ==> 1 <= v <= 100_000_000) by {
                assert(prices[k] == rest[k - 1]);
            }
        }
        if let Some(v) = first_bad_price(rest) {
            let k = choose|k: int| 0 <= k < rest.len() && #[trigger] rest[k] == Some(v);
            assert(prices[k + 1] == Some(v));
        }
        if !(forall|k: int| 0 <= k < rest.len() ==> (#[trigger] rest[k] matches Some(v) ==> 1 <= v <= 100_000_000)) {
            let k = choose|k: int| 0 <= k < rest.len() && !(#[trigger] rest[k] matches Some(v) ==> 1 <= v <= 100_000_000);
            assert(prices[k + 1] == rest[k]);
        }
    }
}

/// Every price of `prices` is in the range 1 to 100000000 satoshis.
pub open spec fn prices_in_range(prices: Seq<Option<u64>>) -> bool {
    forall|k: int| 0 <= k < prices.len() ==> (#[trigger] prices[k] matches Some(v) ==> 1 <= v <= 100_000_000)
}

/// What the search from rule `s` on gives, in terms of the rules themselves.
proof fn lemma_rule_search_from(rules: Seq<ParentRule>, part: Seq<char>, s: int)
    requires
        0 <= s,
    ensures
        rule_search(rules, part, s) matches RuleSearch::Matched(i) ==> s <= i < rules.len()
            && full_match(rules[i].p@, part) == Some(true)
            && prices_in_range(rules[i].prices@)
            && forall|j: int| s <= j < i ==> full_match(#[trigger] rules[j].p@, part) != Some(true),
        rule_search(rules, part, s) matches RuleSearch::BadPrice(v) ==> exists|i: int| s <= i < rules.len()
            && full_match(#[trigger] rules[i].p@, part) == Some(true)
            && (forall|j: int| s <= j < i ==> full_match(#[trigger] rules[j].p@, part) != Some(true))
            && (v == 0 || v > 100_000_000)
            && exists|k: int| 0 <= k < rules[i].prices@.len() && #[trigger] rules[i].prices@[k] == Some(v),
        rule_search(rules, part, s) is NoMatch ==> forall|j: int| s <= j < rules.len() ==> full_match(#[trigger] rules[j].p@, part) != Some(true),
    decreases rules.len() - s,
{
    if s < rules.len() {
        law_rule_prices_in_range(rules[s].prices@);
        if full_match(rules[s].p@, part) != Some(true) {
            lemma_rule_search_from(rules, part, s + 1);
            if let RuleSearch::BadPrice(v) = rule_search(rules, part, s) {
                let i = choose|i: int| s + 1 <= i < rules.len()
                    && full_match(#[trigger] rules[i].p@, part) == Some(true)
                    && (forall|j: int| s + 1 <= j < i ==> full_match(#[trigger] rules[j].p@, part) != Some(true))
                    && (v == 0 || v > 100_000_000)
                    && exists|k: int| 0 <= k < rules[i].prices@.len() && #[trigger] rules[i].prices@[k] == Some(v);
                assert(forall|j: int| s <= j < i ==> full_match(#[trigger] rules[j].p@, part) != Some(true));
            }
        } else if let RuleSearch::BadPrice(v) = rule_search(rules, part, s) {
            assert(full_match(rules[s].p@, part) == Some(true));
        }
    }
}

/// How a rule claim picks its rule: the search gives the first rule whose
/// pattern matches the whole name; it is chosen only if every priced output
/// of it asks 1 to 100000000 satoshis, else the price reported is one of its
/// prices and out of that range; with no rule matching, none is chosen.
pub proof fn law_rule_choice(rules: Seq<ParentRule>, part: Seq<char>)
    ensures
        rule_search(rules, part, 0) matches RuleSearch::Matched(i) ==> 0 <= i < rules.len()
            && full_match(rules[i].p@, part) == Some(true)
            && (forall|k: int| 0 <= k < rules[i].prices@.len()
                ==> (#[trigger] rules[i].prices@[k] matches Some(v) ==> 1 <= v <= 100_000_000))
            && forall|j: int| 0 <= j < i ==> full_match(#[trigger] rules[j].p@, part) != Some(true),
        rule_search(rules, part, 0) matches RuleSearch::BadPrice(v) ==> exists|i: int| 0 <= i < rules.len()
            && full_match(#[trigger] rules[i].p@, part) == Some(true)
            && (forall|j: int| 0 <= j < i ==> full_match(#[trigger] rules[j].p@, part) != Some(true))
            && (v == 0 || v > 100_000_000)
            && exists|k: int| 0 <= k < rules[i].prices@.len() && #[trigger] rules[i].prices@[k] == Some(v),
        rule_search(rules, part, 0) is NoMatch ==> forall|j: int| 0 <= j < rules.len() ==> full_match(#[trigger] rules[j].p@, part) != Some(true),
{
    lemma_rule_search_from(rules, part, 0);
}

/// The first price out of range, if any.
fn find_bad_price(prices: &Vec<Option<u64>>) -> (r: Option<u64>)
    ensures
        r == first_bad_price(prices@),
{
    let n = prices.len();
    let mut i: usize = 0;
    proof {
        assert(prices@.subrange(0, n as int) =~= prices@);
    }
    while i < n
        invariant
            n == prices@.len(),
            i <= n,
            first_bad_price(prices@.subrange(i as int, n as int)) == first_bad_price(prices@),
        decreases n - i,
    {
        proof {
            assert(prices@.subrange(i as int, n as int).drop_first() =~= prices@.subrange(i + 1, n as int));
        }
        if let Some(v) = prices[i] {
            if v == 0 || v > MAX_RULE_PRICE {
                return Some(v);
            }
        }
        i = i + 1;
    }
    proof {
        assert(prices@.subrange(i as int, n as int) =~= Seq::<Option<u64>>::empty());
    }
    None
}

/// The rule a mint of `subrealm_part` goes by: for a rule claim, the first
/// whose pattern matches the whole name, its prices checked; for a direct
/// claim, the first rule. Fails where the parent realm has no rules.
pub fn select_rule(rules: &[ParentRule], subrealm_part: &str, claim_type: SubrealmClaimType) -> (r: Result<usize>)
    ensures
        rules@.len() == 0 ==> (r matches Err(Error::InvalidInput(m)) && m@ == "Parent realm has no rules"@),
        rules@.len() > 0 && claim_type == SubrealmClaimType::Direct ==> r == Ok::<usize, Error>(0),
        rules@.len() > 0 && claim_type == SubrealmClaimType::Rule ==> match rule_search(rules@, subrealm_part@, 0) {
            RuleSearch::Matched(i) => r == Ok::<usize, Error>(i as usize),
            RuleSearch::BadPrice(v) => r matches Err(Error::InvalidInput(m)) && m@ == bad_price_message(v),
            RuleSearch::NoMatch => r matches Err(Error::InvalidInput(m)) && m@ == "No matching rule found"@,
        },
{
    let n = rules.len();
    if n == 0 {
        return Err(Error::InvalidInput(to_owned_string("Parent realm has no rules")));
    }
    if claim_type == SubrealmClaimType::Direct {
        return Ok(0);
    }
    let mut i: usize = 0;
    while i < n
        invariant
            n == rules@.len(),
            i <= n,
            claim_type == SubrealmClaimType::Rule,
            rule_search(rules@, subrealm_part@, i as int) == rule_search(rules@, subrealm_part@, 0),
        decreases n - i,
    {
        if let Some(true) = regex_full_match(rules[i].p.as_str(), subrealm_part) {
            return match find_bad_price(&rules[i].prices) {
                Some(v) => {
                    let digits = decimal_string(v);
                    let head = concat("Invalid price in rule: ", digits.as_str());
                    Err(Error::InvalidInput(concat(head.as_str(), " sats. Must be between 1 and 100000000 sats")))
                },
                None => Ok(i),
            };
        }
        i = i + 1;
    }
    Err(Error::InvalidInput(to_owned_string("No matching rule found")))
}

/// For a rule claim, the matched rule's commit bitwork replaces the configured one.
pub fn apply_rule_bitwork(config: SubrealmConfig, rule: &ParentRule) -> (r: SubrealmConfig)
    ensures
        (config.claim_type == SubrealmClaimType::Rule && rule.bitworkc is Some)
            ==> r == (SubrealmConfig { bitworkc: rule.bitworkc, ..config }),
        !(config.claim_type == SubrealmClaimType::Rule && rule.bitworkc is Some) ==> r == config,
{
    if config.claim_type == SubrealmClaimType::Rule {
        if let Some(b) = &rule.bitworkc {
            let bitworkc = Some(b.clone());
            return SubrealmConfig { bitworkc, ..config };
        }
    }
    config
}

/// The arguments of a subrealm mint payload.
#[derive(Debug)]
pub struct Payload {
    pub bitworkc: Option<String>,
    pub bitworkr: Option<String>,
    pub request_subrealm: String,
    pub parent_realm: String,
    pub claim_type: String,
    pub nonce: Option<u64>,
    pub time: Option<u64>,
    pub container: Option<String>,
    pub meta: Option<serde_json::Value>,
    pub ctx: Option<serde_json::Value>,
    pub init: Option<serde_json::Value>,
}

/// The payload, under the key `args`.
#[derive(Debug)]
pub struct PayloadWrapper {
    pub args: Payload,
}

/// The payload requesting `subrealm_part` under `config`'s parent realm; a
/// rule claim carries `time` and `nonce`, a direct claim neither.
pub fn subrealm_payload(config: SubrealmConfig, subrealm_part: String, time: u64, nonce: u64) -> (r: PayloadWrapper)
    ensures
        r.args.request_subrealm == subrealm_part,
        r.args.parent_realm == config.parent_realm_id,
        config.claim_type == SubrealmClaimType::Direct ==> r.args.claim_type@ == "direct"@ && r.args.time is None && r.args.nonce is None,
        config.claim_type == SubrealmClaimType::Rule ==> r.args.claim_type@ == "rule"@ && r.args.time == Some(time) && r.args.nonce == Some(nonce),
        r.args.bitworkc == config.bitworkc,
        r.args.bitworkr == config.bitworkr,
        r.args.container == config.container,
        r.args.meta == config.meta,
        r.args.ctx == config.ctx,
        r.args.init == config.init,
{
    let claim = config.claim_type.as_str();
    let (time, nonce) = if config.claim_type != SubrealmClaimType::Direct { (Some(time), Some(nonce)) } else { (None, None) };
    PayloadWrapper {
        args: Payload {
            bitworkc: config.bitworkc,
            bitworkr: config.bitworkr,
            request_subrealm: subrealm_part,
            parent_realm: config.parent_realm_id,
            claim_type: to_owned_string(claim),
            nonce,
            time,
            container: config.container,
            meta: config.meta,
            ctx: config.ctx,
            init: config.init,
        },
    }
}

/// How the search for a single funding output ends.
pub enum SingleSelection {
    /// Output `j` alone suffices, paying fee `fee`.
    Found(int, u64),
    /// Output `j`'s script is of no known kind.
    Unsupported,
    /// No output suffices alone.
    NotEnough,
}

/// The first output from `j` on whose value, less the fee of a commit
/// transaction spending it alone (`fees[j]`), reaches `target`; the search
/// stops at an output of unknown kind.
pub open spec fn single_selection(u: Seq<Utxo>, fees: Seq<u64>, target: u64, j: int) -> SingleSelection
    decreases u.len() - j,
{
    if j < 0 || j >= u.len() {
        SingleSelection::NotEnough
    } else if script_type_of(u[j].txout.script_pubkey@) is None {
        SingleSelection::Unsupported
    } else if u[j].txout.value >= fees[j] && u[j].txout.value - fees[j] >= target {
        SingleSelection::Found(j, fees[j])
    } else {
        single_selection(u, fees, target, j + 1)
    }
}

/// Where the search finds an output, it lies at or after `j` and covers
/// `target` after its fee.
proof fn lemma_single_selection_found(u: Seq<Utxo>, fees: Seq<u64>, target: u64, j: int)
    requires
        0 <= j,
        single_selection(u, fees, target, j) is Found,
    ensures
        single_selection(u, fees, target, j) matches SingleSelection::Found(k, fee)
            && j <= k < u.len() && fee == fees[k] && u[k].txout.value >= fee
            && u[k].txout.value - fee >= target,
    decreases u.len() - j,
{
    if j < u.len() && script_type_of(u[j].txout.script_pubkey@) is Some
        && !(u[j].txout.value >= fees[j] && u[j].txout.value - fees[j] >= target) {
        lemma_single_selection_found(u, fees, target, j + 1);
    }
}

/// Picks the first output that alone covers `target_amount` and the fee of a
/// commit transaction spending it (`single_fees[j]` for output `j`).
pub fn select_single_utxo(utxos: &[Utxo], target_amount: u64, single_fees: &[u64]) -> (r: Result<(Vec<Utxo>, u64)>)
    requires
        single_fees@.len() >= utxos@.len(),
    ensures
        match single_selection(utxos@, single_fees@, target_amount, 0) {
            SingleSelection::Found(j, fee) => r matches Ok((sel, f)) && f == fee && sel@.len() == 1
                && same_utxo(sel@[0], utxos@[j]),
            SingleSelection::Unsupported => r matches Err(Error::TransactionError(m)) && m@ == "Unsupported script type"@,
            SingleSelection::NotEnough => r matches Err(Error::InvalidAmount(m)) && m@ == "No single UTXO with sufficient funds found"@,
        },
{
    let n = utxos.len();
    let mut j: usize = 0;
    while j < n
        invariant
            n == utxos@.len(),
            single_fees@.len() >= n,
            j <= n,
            single_selection(utxos@, single_fees@, target_amount, j as int)
                == single_selection(utxos@, single_fees@, target_amount, 0),
        decreases n - j,
    {
        let u = &utxos[j];
        if ScriptType::from_script(u.txout.script_pubkey.as_slice()).is_none() {
            return Err(Error::TransactionError(to_owned_string("Unsupported script type")));
        }
        let fee = single_fees[j];
        if u.txout.value >= fee && u.txout.value - fee >= target_amount {
            let mut sel: Vec<Utxo> = Vec::new();
            sel.push(u.clone());
            return Ok((sel, fee));
        }
        j = j + 1;
    }
    Err(Error::InvalidAmount(to_owned_string("No single UTXO with sufficient funds found")))
}

/// What the commit and reveal transactions of a subrealm mint pay.
#[derive(Debug)]
pub struct SubrealmPlan {
    /// The output that funds the commit transaction.
    pub selected: Vec<Utxo>,
    /// Value of the commit output: reveal fee, subrealm output and parent realm value.
    pub commit_output_value: u64,
    pub commit_fee: u64,
    /// Change back to the wallet, where it is above the dust limit.
    pub change: Option<u64>,
    /// Value of the subrealm output of the reveal.
    pub subrealm_output_value: u64,
    /// For a direct claim, the parent realm's value, returned to its script.
    pub parent_return_value: Option<u64>,
}

/// Plans a subrealm mint: the commit output carries the reveal fee, the
/// subrealm's output value and the parent realm's value; one funding output
/// must cover it and the commit fee; change above the dust limit goes back;
/// the reveal pays the subrealm output and, for a direct claim, returns the
/// parent realm.
pub fn plan_mint_subrealm(
    claim_type: SubrealmClaimType,
    sats_output: u64,
    parent_value: u64,
    utxos: &[Utxo],
    reveal_fee: u64,
    commit_fee: u64,
    single_fees: &[u64],
) -> (r: Result<SubrealmPlan>)
    requires
        reveal_fee + sats_output + parent_value + commit_fee <= u64::MAX,
        single_fees@.len() >= utxos@.len(),
    ensures
        utxos@.len() == 0 ==> (r matches Err(Error::InvalidAmount(m)) && m@ == "No UTXOs available"@),
        utxos@.len() > 0 ==> ({
            let cov = reveal_fee + sats_output + parent_value;
            let target = (cov + commit_fee) as u64;
            match single_selection(utxos@, single_fees@, target, 0) {
                SingleSelection::Found(j, fee) => r matches Ok(p) && p.selected@.len() == 1
                    && same_utxo(p.selected@[0], utxos@[j])
                    && p.commit_output_value == cov
                    && p.commit_fee == commit_fee
                    && utxos@[j].txout.value >= cov + commit_fee
                    && p.change == kept_change((utxos@[j].txout.value - commit_fee - cov) as nat)
                    && p.subrealm_output_value == sats_output
                    && p.parent_return_value == (if claim_type == SubrealmClaimType::Direct { Some(parent_value) } else { None::<u64> }),
                SingleSelection::Unsupported => r matches Err(Error::TransactionError(m)) && m@ == "Unsupported script type"@,
                SingleSelection::NotEnough => r matches Err(Error::InvalidAmount(m)) && m@ == "No single UTXO with sufficient funds found"@,
            }
        }),
{
    if utxos.len() == 0 {
        return Err(Error::InvalidAmount(to_owned_string("No UTXOs available")));
    }
    let commit_output_value = reveal_fee + (sats_output + parent_value);
    let target = commit_output_value + commit_fee;
    proof {
        if single_selection(utxos@, single_fees@, target, 0) is Found {
            lemma_single_selection_found(utxos@, single_fees@, target, 0);
        }
    }
    let (selected, _fee) = match select_single_utxo(utxos, target, single_fees) {
        Ok(x) => x,
        Err(e) => return Err(e),
    };
    let total_input = selected[0].txout.value;
    let change_amount = match commit_change(total_input, commit_fee, commit_output_value) {
        Ok(c) => c,
        Err(e) => return Err(e),
    };
    let change = if change_amount > DUST_LIMIT { Some(change_amount) } else { None };
    let parent_return_value = if claim_type == SubrealmClaimType::Direct { Some(parent_value) } else { None };
    Ok(SubrealmPlan {
        selected,
        commit_output_value,
        commit_fee,
        change,
        subrealm_output_value: sats_output,
        parent_return_value,
    })
}

/// The inputs of a subrealm reveal: output 0 of the commit transaction and,
/// for a direct claim, the parent realm; sequence numbers zero.
pub open spec fn subrealm_reveal_inputs(commit_txid: [u8; 32], direct: bool, parent: OutPoint) -> Seq<(OutPoint, u32)> {
    if direct {
        seq![(OutPoint { txid: commit_txid, vout: 0 }, 0u32), (parent, 0u32)]
    } else {
        seq![(OutPoint { txid: commit_txid, vout: 0 }, 0u32)]
    }
}

/// The outputs of a subrealm reveal: the subrealm to the wallet and, for a
/// direct claim, the parent realm back to its script.
pub open spec fn subrealm_reveal_outputs(value: u64, wallet_script: Seq<u8>, parent_return: Option<u64>, parent_script: Seq<u8>) -> Seq<(u64, Seq<u8>)> {
    match parent_return {
        Some(v) => seq![(value, wallet_script), (v, parent_script)],
        None => seq![(value, wallet_script)],
    }
}

/// The reveal transaction of a subrealm mint (version 1, lock time zero).
pub fn subrealm_reveal_transaction(
    commit_txid: [u8; 32],
    plan: &SubrealmPlan,
    parent: OutPoint,
    wallet_script: &[u8],
    parent_script: &[u8],
) -> (r: Transaction)
    ensures
        r@ == tx_encoding(1, 0, subrealm_reveal_inputs(commit_txid, plan.parent_return_value is Some, parent),
            subrealm_reveal_outputs(plan.subrealm_output_value, wallet_script@, plan.parent_return_value, parent_script@)),
        tx_input_count(r@) >= 1,
{
    let mut inputs: Vec<(OutPoint, u32)> = Vec::new();
    inputs.push((OutPoint { txid: commit_txid, vout: 0 }, 0));
    let mut outputs: Vec<TxOut> = Vec::new();
    outputs.push(TxOut { value: plan.subrealm_output_value, script_pubkey: copy_bytes(wallet_script) });
    if let Some(v) = plan.parent_return_value {
        inputs.push((parent, 0));
        outputs.push(TxOut { value: v, script_pubkey: copy_bytes(parent_script) });
    }
    proof {
        assert(inputs@ =~= subrealm_reveal_inputs(commit_txid, plan.parent_return_value is Some, parent));
        assert(crate::chain::outputs_view(outputs@) =~= subrealm_reveal_outputs(plan.subrealm_output_value,
            wallet_script@, plan.parent_return_value, parent_script@));
    }
    Transaction::new(1, 0, inputs.as_slice(), outputs.as_slice())
}

} // verus!
