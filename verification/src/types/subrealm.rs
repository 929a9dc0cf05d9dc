//! Subrealms: names minted under a parent realm.

use vstd::prelude::*;
use crate::text::{byte_count, byte_len, has_char, is_name_char, lemma_byte_count_empty, rfind_char, substring, char_len};
use crate::types::realm::{all_name_chars, hyphen_at_edge, starts_or_ends_with_hyphen, DUST_LIMIT};

verus! {

/// How a subrealm is claimed.
#[derive(Debug, Clone, Copy, PartialEq, Eq, Structural)]
pub enum SubrealmClaimType {
    /// Minted by the owner of the parent realm.
    Direct,
    /// Minted under the parent realm's published rules.
    Rule,
}

impl SubrealmClaimType {
    /// The protocol's name of the claim type.
    pub fn as_str(&self) -> (r: &'static str)
        ensures
            *self == SubrealmClaimType::Direct ==> r@ == "direct"@,
            *self == SubrealmClaimType::Rule ==> r@ == "rule"@,
    {
        match self {
            SubrealmClaimType::Direct => "direct",
            SubrealmClaimType::Rule => "rule",
        }
    }
}

/// A payment that a rule asks for.
#[derive(Debug, Clone)]
pub struct RuleOutput {
    /// Amount to pay, in satoshis.
    pub v: u64,
    /// An optional token id to pay in.
    pub id: Option<String>,
}

/// A rule under which subrealms of a realm may be minted.
#[derive(Debug, Clone)]
pub struct SubrealmRule {
    /// The pattern (a regular expression) that names must match.
    pub p: String,
    /// The payments, each keyed by an output script (hex); each key occurs once.
    pub o: Vec<(String, RuleOutput)>,
    /// Proof-of-work prefix required of the commit transaction.
    pub bitworkc: Option<String>,
    /// Proof-of-work prefix required of the reveal transaction.
    pub bitworkr: Option<String>,
}

/// What minting a subrealm needs.
#[derive(Debug, Clone)]
pub struct SubrealmConfig {
    /// The full name, such as "example.sub".
    pub name: String,
    /// The Atomical id of the parent realm.
    pub parent_realm_id: String,
    /// Direct or rule-based claim.
    pub claim_type: SubrealmClaimType,
    /// Proof-of-work prefix required of the commit transaction.
    pub bitworkc: Option<String>,
    /// Proof-of-work prefix required of the reveal transaction.
    pub bitworkr: Option<String>,
    /// An optional container.
    pub container: Option<String>,
    /// Value of the subrealm's output, in satoshis.
    pub sats_output: u64,
    /// Optional metadata.
    pub meta: Option<serde_json::Value>,
    /// Optional context data.
    pub ctx: Option<serde_json::Value>,
    /// Optional initial data.
    pub init: Option<serde_json::Value>,
    /// Optional fee rate in sat/vB, held as the bit pattern of its IEEE-754
    /// double (`f64::to_bits`).
    pub fee_rate: Option<u64>,
    /// Payment outputs for a rule claim: output script bytes and payment.
    pub rule_outputs: Option<Vec<(Vec<u8>, RuleOutput)>>,
}

pub open spec fn subrealm_dot_message() -> Seq<char> {
    "Subrealm must contain a dot separator"@
}

pub open spec fn subrealm_length_message() -> Seq<char> {
    "Subrealm name must be between 1 and 64 characters"@
}

pub open spec fn subrealm_charset_message() -> Seq<char> {
    "Subrealm name can only contain lowercase letters, numbers, and hyphens"@
}

pub open spec fn subrealm_hyphen_message() -> Seq<char> {
    "Subrealm name cannot start or end with a hyphen"@
}

/// Position of the last occurrence of `c` in `s` (meaningful where `s` has one).
pub open spec fn last_index_of(s: Seq<char>, c: char) -> int {
    choose|i: int| 0 <= i < s.len() && s[i] == c && forall|j: int| i < j < s.len() ==> s[j] != c
}

/// What follows the last dot of `name` (all of it where it has none).
pub open spec fn subrealm_part(name: Seq<char>) -> Seq<char> {
    if has_char(name, '.') {
        name.subrange(last_index_of(name, '.') + 1, name.len() as int)
    } else {
        name
    }
}

/// The first rule of subrealm names that `n` breaks, as its message.
pub open spec fn subrealm_name_violation(n: Seq<char>) -> Option<Seq<char>> {
    let part = subrealm_part(n);
    if !has_char(n, '.') {
        Some(subrealm_dot_message())
    } else if byte_count(part) < 1 || byte_count(part) > 64 {
        Some(subrealm_length_message())
    } else if !(forall|i: int| 0 <= i < part.len() ==> #[trigger] is_name_char(part[i])) {
        Some(subrealm_charset_message())
    } else if hyphen_at_edge(part) {
        Some(subrealm_hyphen_message())
    } else {
        None
    }
}

/// The part of `name` after its last dot (all of it where it has none).
pub fn last_name_part(name: &str) -> (r: String)
    ensures
        r@ == subrealm_part(name@),
{
    let n = char_len(name);
    match rfind_char(name, '.') {
        Some(k) => {
            proof {
                let w = last_index_of(name@, '.');
                assert(0 <= w < name@.len() && name@[w] == '.');
                if w < k {
                    assert(false);
                } else if w > k {
                    assert(false);
                }
            }
            substring(name, k + 1, n)
        },
        None => substring(name, 0, n),
    }
}

impl SubrealmConfig {
    /// A configuration for subrealm `name` under the realm `parent_realm_id`,
    /// with the dust limit as output value and nothing else set.
    pub fn new(name: String, parent_realm_id: String, claim_type: SubrealmClaimType) -> (r: Self)
        ensures
            r.name == name,
            r.parent_realm_id == parent_realm_id,
            r.claim_type == claim_type,
            r.bitworkc is None,
            r.bitworkr is None,
            r.container is None,
            r.sats_output == DUST_LIMIT,
            r.meta is None,
            r.ctx is None,
            r.init is None,
            r.fee_rate is None,
            r.rule_outputs is None,
    {
        SubrealmConfig {
            name,
            parent_realm_id,
            claim_type,
            bitworkc: None,
            bitworkr: None,
            container: None,
            sats_output: DUST_LIMIT,
            meta: None,
            ctx: None,
            init: None,
            fee_rate: None,
            rule_outputs: None,
        }
    }

    /// Checks the subrealm name: it has a dot, and what follows the last dot
    /// is 1 to 64 bytes of lowercase letters, digits and hyphens with no hyphen
    /// first or last; the error names the first rule broken.
    pub fn validate_name(&self) -> (r: Result<(), &'static str>)
        ensures
            r is Ok <==> subrealm_name_violation(self.name@) is None,
            r matches Err(m) ==> subrealm_name_violation(self.name@) == Some(m@),
    {
        let name = self.name.as_str();
        if rfind_char(name, '.').is_none() {
            return Err("Subrealm must contain a dot separator");
        }
        let part = last_name_part(name);
        let len = byte_len(part.as_str());
        if len < 1 || len > 64 {
            return Err("Subrealm name must be between 1 and 64 characters");
        }
        if !all_name_chars(part.as_str()) {
            return Err("Subrealm name can only contain lowercase letters, numbers, and hyphens");
        }
        if starts_or_ends_with_hyphen(part.as_str()) {
            return Err("Subrealm name cannot start or end with a hyphen");
        }
        Ok(())
    }

    /// Sets the payment outputs of a rule claim.
    pub fn with_rule_outputs(self, outputs: Vec<(Vec<u8>, RuleOutput)>) -> (r: Self)
        ensures
            r == (SubrealmConfig { rule_outputs: Some(outputs), ..self }),
    {
        SubrealmConfig { rule_outputs: Some(outputs), ..self }
    }

    /// Sets the commit proof-of-work prefix.
    pub fn with_bitworkc(self, bitworkc: String) -> (r: Self)
        ensures
            r == (SubrealmConfig { bitworkc: Some(bitworkc), ..self }),
    {
        SubrealmConfig { bitworkc: Some(bitworkc), ..self }
    }

    /// Sets the reveal proof-of-work prefix.
    pub fn with_bitworkr(self, bitworkr: String) -> (r: Self)
        ensures
            r == (SubrealmConfig { bitworkr: Some(bitworkr), ..self }),
    {
        SubrealmConfig { bitworkr: Some(bitworkr), ..self }
    }

    /// Sets the container.
    pub fn with_container(self, container: String) -> (r: Self)
        ensures
            r == (SubrealmConfig { container: Some(container), ..self }),
    {
        SubrealmConfig { container: Some(container), ..self }
    }

    /// Sets the value of the subrealm's output.
    pub fn with_sats_output(self, sats: u64) -> (r: Self)
        ensures
            r == (SubrealmConfig { sats_output: sats, ..self }),
    {
        SubrealmConfig { sats_output: sats, ..self }
    }

    /// Sets the metadata.
    pub fn with_meta(self, meta: serde_json::Value) -> (r: Self)
        ensures
            r == (SubrealmConfig { meta: Some(meta), ..self }),
    {
        SubrealmConfig { meta: Some(meta), ..self }
    }

    /// Sets the context data.
    pub fn with_ctx(self, ctx: serde_json::Value) -> (r: Self)
        ensures
            r == (SubrealmConfig { ctx: Some(ctx), ..self }),
    {
        SubrealmConfig { ctx: Some(ctx), ..self }
    }

    /// Sets the initial data.
    pub fn with_init(self, init: serde_json::Value) -> (r: Self)
        ensures
            r == (SubrealmConfig { init: Some(init), ..self }),
    {
        SubrealmConfig { init: Some(init), ..self }
    }
}

/// The subrealm name rules: a name passes exactly when it has a dot and the
/// part after its last dot has 1 to 64 bytes, every character 'a' to 'z',
/// '0' to '9' or '-', and neither its first nor its last character is '-'.
/// A part of the right length and characters that starts or ends with '-'
/// is refused with the hyphen message.
pub proof fn law_subrealm_name_rules(n: Seq<char>)
    ensures
        ({
            let p = subrealm_part(n);
            &&& subrealm_name_violation(n) is None <==> (
                (exists|i: int| 0 <= i < n.len() && #[trigger] n[i] == '.')
                && 1 <= byte_count(p) <= 64
                && (forall|i: int| 0 <= i < p.len() ==> ('a' <= #[trigger] p[i] <= 'z' || '0' <= p[i] <= '9' || p[i] == '-'))
                && p[0] != '-' && p[p.len() - 1] != '-')
            &&& ((exists|i: int| 0 <= i < n.len() && #[trigger] n[i] == '.')
                && 1 <= byte_count(p) <= 64
                && (forall|i: int| 0 <= i < p.len() ==> ('a' <= #[trigger] p[i] <= 'z' || '0' <= p[i] <= '9' || p[i] == '-'))
                && (p[0] == '-' || p[p.len() - 1] == '-'))
                ==> subrealm_name_violation(n) == Some("Subrealm name cannot start or end with a hyphen"@)
        }),
{
    let p = subrealm_part(n);
    if p.len() == 0 {
        lemma_byte_count_empty(p);
    }
    assert forall|i: int| 0 <= i < p.len() implies
        (is_name_char(#[trigger] p[i]) <==> ('a' <= p[i] <= 'z' || '0' <= p[i] <= '9' || p[i] == '-')) by {}
}

} // verus!
