//! What the browser entry points decide before they start an operation:
//! mining options from optional arguments, the claim type from its name,
//! and the optional JSON fields of a subrealm request.

use vstd::prelude::*;
use vstd::utf8::is_ascii_chars;
use crate::operations::mining::MiningOptions;
use crate::text::{concat, str_eq};
use crate::types::realm::DUST_LIMIT;
use crate::types::subrealm::{SubrealmClaimType, SubrealmConfig};

verus! {

/// Mining options from the optional worker count and batch size of an entry
/// point: none where neither is given, else 4 workers and batches of 1000
/// where one is missing.
pub fn mining_options_from(num_workers: Option<u32>, batch_size: Option<u32>) -> (r: Option<MiningOptions>)
    ensures
        (num_workers is None && batch_size is None) ==> r is None,
        !(num_workers is None && batch_size is None) ==> (r matches Some(o)
            && o.num_workers == (match num_workers { Some(n) => n, None => 4u32 })
            && o.batch_size == (match batch_size { Some(b) => b, None => 1000u32 })),
{
    if num_workers.is_none() && batch_size.is_none() {
        return None;
    }
    let n = match num_workers {
        Some(n) => n,
        None => 4,
    };
    let b = match batch_size {
        Some(b) => b,
        None => 1000,
    };
    Some(MiningOptions { num_workers: n, batch_size: b })
}

/// `s` in lowercase, as `str::to_lowercase` gives it (Unicode lowercase mapping).
pub uninterp spec fn lowercase_text(s: Seq<char>) -> Seq<char>;

/// ASCII lowercase of `s`: `A` to `Z` become `a` to `z`, all else stays.
pub open spec fn ascii_lower(s: Seq<char>) -> Seq<char> {
    Seq::new(s.len(), |i: int| if 'A' <= s[i] && s[i] <= 'Z' { ((s[i] as u32) + 32) as char } else { s[i] })
}

/// `str::to_lowercase`. On ASCII text it maps `A` to `Z` to `a` to `z` and
/// leaves every other character as it is.
#[verifier::external_body]
pub(crate) fn to_lowercase(s: &str) -> (r: String)
    ensures
        r@ == lowercase_text(s@),
        is_ascii_chars(s@) ==> r@ == ascii_lower(s@),
{
    s.to_lowercase()
}

/// The claim type that `s` names, case aside: "direct" or "rule".
pub fn parse_claim_type(s: &str) -> (r: Option<SubrealmClaimType>)
    ensures
        lowercase_text(s@) == "direct"@ ==> r == Some(SubrealmClaimType::Direct),
        lowercase_text(s@) == "rule"@ ==> r == Some(SubrealmClaimType::Rule),
        (lowercase_text(s@) != "direct"@ && lowercase_text(s@) != "rule"@) ==> r is None,
        is_ascii_chars(s@) ==> r == parse_claim_type_spec(ascii_lower(s@)),
{
    let lower = to_lowercase(s);
    proof {
        reveal_strlit("direct");
        reveal_strlit("rule");
        assert("direct"@.len() != "rule"@.len());
    }
    if str_eq(lower.as_str(), "direct") {
        Some(SubrealmClaimType::Direct)
    } else if str_eq(lower.as_str(), "rule") {
        Some(SubrealmClaimType::Rule)
    } else {
        None
    }
}

/// What `serde_json::from_str::<Value>` says of `s`: `None` where `s` is one
/// JSON value, else the text of its error.
pub uninterp spec fn json_parse_error(s: Seq<char>) -> Option<Seq<char>>;

/// The value that `serde_json::from_str::<Value>` reads from `s`, where `s`
/// is one JSON value.
pub uninterp spec fn json_value(s: Seq<char>) -> serde_json::Value;

/// `serde_json::from_str::<Value>`: the value read from the text, or the
/// text of the error.
#[verifier::external_body]
pub(crate) fn parse_json(s: &str) -> (r: Result<serde_json::Value, String>)
    ensures
        match json_parse_error(s@) {
            None => r matches Ok(v) && v == json_value(s@),
            Some(e) => r matches Err(m) && m@ == e,
        },
{
    match serde_json::from_str::<serde_json::Value>(s) {
        Ok(v) => Ok(v),
        Err(e) => Err(e.to_string()),
    }
}

/// An optional JSON field of a request: absent stays absent; present text
/// must parse, else the error reads `Invalid <label> JSON: <error>`.
pub fn parse_json_field(label: &str, text: Option<String>) -> (r: Result<Option<serde_json::Value>, String>)
    ensures
        text is None ==> (r matches Ok(v) && v is None),
        text matches Some(t) ==> match json_parse_error(t@) {
            None => r == Ok::<Option<serde_json::Value>, String>(Some(json_value(t@))),
            Some(e) => r matches Err(m) && m@ == "Invalid "@ + label@ + " JSON: "@ + e,
        },
{
    match text {
        None => Ok(None),
        Some(t) => match parse_json(t.as_str()) {
            Ok(v) => Ok(Some(v)),
            Err(e) => {
                let a = concat("Invalid ", label);
                let b = concat(a.as_str(), " JSON: ");
                Err(concat(b.as_str(), e.as_str()))
            },
        },
    }
}

/// The value of an optional JSON field: the value its text reads as.
pub open spec fn field_value(text: Option<String>) -> Option<serde_json::Value> {
    match text {
        Some(t) => Some(json_value(t@)),
        None => None,
    }
}

/// Message of an unknown claim type.
pub open spec fn claim_type_message() -> Seq<char> {
    "Invalid claim type. Must be 'direct' or 'rule'"@
}

/// The subrealm configuration that the subrealm entry point builds from its
/// arguments: the claim type named by `claim_type`, then `meta`, `ctx` and
/// `init` parsed in that order; the first failure is the error. The fee rate
/// is left to the network.
pub fn subrealm_request(
    name: String,
    parent_realm_id: String,
    claim_type: &str,
    sats_output: u64,
    bitwork_c: Option<String>,
    bitwork_r: Option<String>,
    container: Option<String>,
    meta: Option<String>,
    ctx: Option<String>,
    init: Option<String>,
) -> (r: Result<SubrealmConfig, String>)
    ensures
        match parse_claim_type_spec(lowercase_text(claim_type@)) {
            None => r matches Err(m) && m@ == claim_type_message(),
            Some(ct) => match field_error("meta"@, meta) {
                Some(e) => r matches Err(m) && m@ == e,
                None => match field_error("ctx"@, ctx) {
                    Some(e) => r matches Err(m) && m@ == e,
                    None => match field_error("init"@, init) {
                        Some(e) => r matches Err(m) && m@ == e,
                        None => r matches Ok(c)
                            && c.name == name && c.parent_realm_id == parent_realm_id
                            && c.claim_type == ct && c.sats_output == sats_output
                            && c.bitworkc == bitwork_c && c.bitworkr == bitwork_r
                            && c.container == container
                            && c.meta == field_value(meta)
                            && c.ctx == field_value(ctx)
                            && c.init == field_value(init)
                            && c.fee_rate is None && c.rule_outputs is None,
                    },
                },
            },
        },
{
    let ct = match parse_claim_type(claim_type) {
        Some(ct) => ct,
        None => {
            return Err(crate::text::to_owned_string("Invalid claim type. Must be 'direct' or 'rule'"));
        },
    };
    let ghost meta_text = meta;
    let ghost ctx_text = ctx;
    let ghost init_text = init;
    let meta_value = match parse_json_field("meta", meta) {
        Ok(v) => v,
        Err(e) => return Err(e),
    };
    let ctx_value = match parse_json_field("ctx", ctx) {
        Ok(v) => v,
        Err(e) => return Err(e),
    };
    let init_value = match parse_json_field("init", init) {
        Ok(v) => v,
        Err(e) => return Err(e),
    };
    proof {
        reveal_strlit("meta");
        reveal_strlit("ctx");
        reveal_strlit("init");
    }
    Ok(SubrealmConfig {
        name,
        parent_realm_id,
        claim_type: ct,
        bitworkc: bitwork_c,
        bitworkr: bitwork_r,
        container,
        sats_output,
        meta: meta_value,
        ctx: ctx_value,
        init: init_value,
        fee_rate: None,
        rule_outputs: None,
    })
}

/// The claim type that a lowercased name gives.
pub open spec fn parse_claim_type_spec(lower: Seq<char>) -> Option<SubrealmClaimType> {
    if lower == "direct"@ {
        Some(SubrealmClaimType::Direct)
    } else if lower == "rule"@ {
        Some(SubrealmClaimType::Rule)
    } else {
        None
    }
}

/// The error of an optional JSON field labelled `label`, if its text does not parse.
pub open spec fn field_error(label: Seq<char>, text: Option<String>) -> Option<Seq<char>> {
    match text {
        None => None,
        Some(t) => match json_parse_error(t@) {
            None => None,
            Some(e) => Some("Invalid "@ + label + " JSON: "@ + e),
        },
    }
}

} // verus!
