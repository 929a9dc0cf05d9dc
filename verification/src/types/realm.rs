//! Realms: top-level Atomicals names.

use vstd::prelude::*;
use crate::text::{byte_count, byte_len, char_at, char_len, is_name_char, lemma_byte_count_empty};

verus! {

/// What minting a realm needs.
#[derive(Debug, Clone)]
pub struct RealmConfig {
    /// The realm name.
    pub name: String,
    /// Proof-of-work prefix required of the commit transaction.
    pub bitworkc: Option<String>,
    /// Proof-of-work prefix required of the reveal transaction.
    pub bitworkr: Option<String>,
    /// An optional container.
    pub container: Option<String>,
    /// An optional parent realm.
    pub parent: Option<String>,
    /// The owner of the parent realm.
    pub parent_owner: Option<String>,
    /// Value of the realm's output, in satoshis.
    pub sats_output: u64,
}

/// The dust limit: the smallest output value that relays, in satoshis.
pub const DUST_LIMIT: u64 = 546;

pub open spec fn realm_length_message() -> Seq<char> {
    "Realm name must be between 3 and 63 characters"@
}

pub open spec fn realm_charset_message() -> Seq<char> {
    "Realm name can only contain lowercase letters, numbers, and hyphens"@
}

pub open spec fn realm_hyphen_edge_message() -> Seq<char> {
    "Realm name cannot start or end with a hyphen"@
}

pub open spec fn realm_double_hyphen_message() -> Seq<char> {
    "Realm name cannot contain consecutive hyphens"@
}

/// Two hyphens stand side by side in `n`.
pub open spec fn has_double_hyphen(n: Seq<char>) -> bool {
    exists|i: int| 0 <= i && i + 1 < n.len() && #[trigger] n[i] == '-' && n[i + 1] == '-'
}

/// `n` starts or ends with a hyphen.
pub open spec fn hyphen_at_edge(n: Seq<char>) -> bool {
    n.len() > 0 && (n[0] == '-' || n[n.len() - 1] == '-')
}

/// The first rule of realm names that `n` breaks, as its message.
pub open spec fn realm_name_violation(n: Seq<char>) -> Option<Seq<char>> {
    if byte_count(n) < 3 || byte_count(n) > 63 {
        Some(realm_length_message())
    } else if !(forall|i: int| 0 <= i < n.len() ==> #[trigger] is_name_char(n[i])) {
        Some(realm_charset_message())
    } else if hyphen_at_edge(n) {
        Some(realm_hyphen_edge_message())
    } else if has_double_hyphen(n) {
        Some(realm_double_hyphen_message())
    } else {
        None
    }
}

/// Every character of `s` may stand in a realm name.
pub fn all_name_chars(s: &str) -> (r: bool)
    ensures
        r == forall|i: int| 0 <= i < s@.len() ==> #[trigger] is_name_char(s@[i]),
{
    let n = char_len(s);
    let mut i: usize = 0;
    while i < n
        invariant
            n == s@.len(),
            i <= n,
            forall|j: int| 0 <= j < i ==> #[trigger] is_name_char(s@[j]),
        decreases n - i,
    {
        let c = char_at(s, i);
        if !((c >= 'a' && c <= 'z') || (c >= '0' && c <= '9') || c == '-') {
            assert(!is_name_char(s@[i as int]));
            return false;
        }
        i = i + 1;
    }
    true
}

/// Whether two hyphens stand side by side in `s`.
fn contains_double_hyphen(s: &str) -> (r: bool)
    ensures
        r == has_double_hyphen(s@),
{
    let n = char_len(s);
    let mut i: usize = 0;
    if n < 2 {
        return false;
    }
    while i < n - 1
        invariant
            n == s@.len(),
            n >= 2,
            forall|j: int| 0 <= j < i && j + 1 < n ==> !(#[trigger] s@[j] == '-' && s@[j + 1] == '-'),
        decreases n - i,
    {
        if char_at(s, i) == '-' && char_at(s, i + 1) == '-' {
            return true;
        }
        i = i + 1;
    }
    false
}

/// Whether `s` starts or ends with a hyphen.
pub fn starts_or_ends_with_hyphen(s: &str) -> (r: bool)
    ensures
        r == hyphen_at_edge(s@),
{
    let n = char_len(s);
    n > 0 && (char_at(s, 0) == '-' || char_at(s, n - 1) == '-')
}

impl RealmConfig {
    /// The configuration that `new(name)` gives.
    pub open spec fn new_spec(name: String) -> RealmConfig {
        RealmConfig {
            name: name,
            bitworkc: None,
            bitworkr: None,
            container: None,
            parent: None,
            parent_owner: None,
            sats_output: DUST_LIMIT,
        }
    }

    /// A configuration for the realm `name`, with the dust limit as output value
    /// and nothing else set.
    pub fn new(name: String) -> (r: Self)
        ensures
            r == Self::new_spec(name),
    {
        RealmConfig {
            name,
            bitworkc: None,
            bitworkr: None,
            container: None,
            parent: None,
            parent_owner: None,
            sats_output: DUST_LIMIT,
        }
    }

    /// Checks the realm name: 3 to 63 bytes of lowercase letters, digits and
    /// hyphens, no hyphen first or last, no two hyphens together; the error
    /// names the first rule broken.
    pub fn validate_name(&self) -> (r: Result<(), &'static str>)
        ensures
            r is Ok <==> realm_name_violation(self.name@) is None,
            r matches Err(m) ==> realm_name_violation(self.name@) == Some(m@),
    {
        let name = self.name.as_str();
        let len = byte_len(name);
        if len < 3 || len > 63 {
            return Err("Realm name must be between 3 and 63 characters");
        }
        if !all_name_chars(name) {
            return Err("Realm name can only contain lowercase letters, numbers, and hyphens");
        }
        if starts_or_ends_with_hyphen(name) {
            return Err("Realm name cannot start or end with a hyphen");
        }
        if contains_double_hyphen(name) {
            return Err("Realm name cannot contain consecutive hyphens");
        }
        Ok(())
    }

    /// Sets the commit proof-of-work prefix.
    pub fn with_bitworkc(self, bitworkc: String) -> (r: Self)
        ensures
            r == (RealmConfig { bitworkc: Some(bitworkc), ..self }),
    {
        RealmConfig { bitworkc: Some(bitworkc), ..self }
    }

    /// Sets the reveal proof-of-work prefix.
    pub fn with_bitworkr(self, bitworkr: String) -> (r: Self)
        ensures
            r == (RealmConfig { bitworkr: Some(bitworkr), ..self }),
    {
        RealmConfig { bitworkr: Some(bitworkr), ..self }
    }

    /// Sets the container.
    pub fn with_container(self, container: String) -> (r: Self)
        ensures
            r == (RealmConfig { container: Some(container), ..self }),
    {
        RealmConfig { container: Some(container), ..self }
    }

    /// Sets the parent realm and its owner.
    pub fn with_parent(self, parent: String, parent_owner: Option<String>) -> (r: Self)
        ensures
            r == (RealmConfig { parent: Some(parent), parent_owner: parent_owner, ..self }),
    {
        RealmConfig { parent: Some(parent), parent_owner, ..self }
    }

    /// Sets the value of the realm's output.
    pub fn with_sats_output(self, sats: u64) -> (r: Self)
        ensures
            r == (RealmConfig { sats_output: sats, ..self }),
    {
        RealmConfig { sats_output: sats, ..self }
    }
}

/// The realm name rules: a name passes exactly when it has 3 to 63 bytes,
/// every character is 'a' to 'z', '0' to '9' or '-', neither its first nor
/// its last character is '-', and no two hyphens stand side by side. A name
/// of the right length and characters that starts or ends with '-' is
/// refused with the hyphen message.
pub proof fn law_realm_name_rules(n: Seq<char>)
    ensures
        realm_name_violation(n) is None <==> (
            3 <= byte_count(n) <= 63
            && (forall|i: int| 0 <= i < n.len() ==> ('a' <= #[trigger] n[i] <= 'z' || '0' <= n[i] <= '9' || n[i] == '-'))
            && n[0] != '-' && n[n.len() - 1] != '-'
            && (forall|i: int| #![trigger n[i]] 0 <= i && i + 1 < n.len() ==> !(n[i] == '-' && n[i + 1] == '-'))),
        (3 <= byte_count(n) <= 63
            && (forall|i: int| 0 <= i < n.len() ==> ('a' <= #[trigger] n[i] <= 'z' || '0' <= n[i] <= '9' || n[i] == '-'))
            && (n[0] == '-' || n[n.len() - 1] == '-'))
            ==> realm_name_violation(n) == Some("Realm name cannot start or end with a hyphen"@),
{
    if n.len() == 0 {
        lemma_byte_count_empty(n);
    }
    assert forall|i: int| 0 <= i < n.len() implies
        (is_name_char(#[trigger] n[i]) <==> ('a' <= n[i] <= 'z' || '0' <= n[i] <= '9' || n[i] == '-')) by {}
    if has_double_hyphen(n) {
        let k = choose|i: int| 0 <= i && i + 1 < n.len() && #[trigger] n[i] == '-' && n[i + 1] == '-';
        assert(n[k] == '-' && n[k + 1] == '-');
    }
    if forall|i: int| #![trigger n[i]] 0 <= i && i + 1 < n.len() ==> !(n[i] == '-' && n[i + 1] == '-') {
        assert(!has_double_hyphen(n));
    }
}

} // verus!
