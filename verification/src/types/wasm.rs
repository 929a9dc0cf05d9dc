//! Plain-value forms of the types that the browser side exchanges: a
//! transaction as hex, a bitwork with its difficulty as text, and a realm
//! configuration.

use vstd::prelude::*;
use vstd::utf8::encode_utf8;
use crate::chain::{input_count, tx_decodes, tx_input_count, tx_with_first_sequence, with_first_sequence};
use crate::codec::{hex_decode, hex_decoded, hex_encode, hex_text};
use crate::text::{concat, decimal_string, decimal_text, lemma_decimal_parses_back, parsed_u32, parse_u32};
use crate::codec::lemma_hex_text_roundtrip;
use crate::types::mint::BitworkInfo;
use crate::types::realm::{realm_name_violation, RealmConfig, DUST_LIMIT};
use crate::types::transaction::Transaction;

verus! {

/// A transaction as the hex text of its consensus encoding.
#[derive(Debug, Clone)]
pub struct WasmTransaction {
    hex: String,
}

impl View for WasmTransaction {
    type V = Seq<char>;

    closed spec fn view(&self) -> Seq<char> {
        self.hex@
    }
}

/// The bytes that hex text `h` spells, where it spells any.
pub open spec fn hex_bytes(h: Seq<char>) -> Option<Seq<u8>> {
    hex_decoded(encode_utf8(h))
}

/// The transaction that hex text `h` spells, as its encoding, where it spells one.
pub open spec fn hex_transaction(h: Seq<char>) -> Option<Seq<u8>> {
    match hex_bytes(h) {
        Some(b) => if tx_decodes(b) { Some(b) } else { None },
        None => None,
    }
}

impl WasmTransaction {
    /// A transaction given as hex text.
    pub fn new(hex: String) -> (r: Self)
        ensures
            r@ == hex@,
    {
        WasmTransaction { hex }
    }

    /// The hex text.
    pub fn to_hex(&self) -> (r: String)
        ensures
            r@ == self@,
    {
        self.hex.clone()
    }

    /// A transaction given as hex text.
    pub fn from_hex(hex: String) -> (r: Self)
        ensures
            r@ == hex@,
    {
        WasmTransaction { hex }
    }

    /// Sets the sequence number of the first input to `nonce` and re-encodes
    /// the transaction; false, changing nothing, where the text is not a
    /// transaction or the transaction has no input.
    pub fn set_sequence(&mut self, nonce: u32) -> (r: bool)
        ensures
            r == (hex_transaction(old(self)@) matches Some(b) && tx_input_count(b) > 0),
            r ==> final(self)@ == hex_text(tx_with_first_sequence(hex_transaction(old(self)@).unwrap(), nonce)),
            r ==> hex_transaction(final(self)@) == Some(tx_with_first_sequence(hex_transaction(old(self)@).unwrap(), nonce)),
            !r ==> final(self)@ == old(self)@,
    {
        match self.to_transaction() {
            Some(tx) => {
                let bytes = tx.bytes();
                if input_count(bytes.as_slice()) > 0 {
                    let updated = with_first_sequence(bytes.as_slice(), nonce);
                    proof {
                        lemma_hex_text_roundtrip(updated@);
                    }
                    self.hex = hex_encode(updated.as_slice());
                    return true;
                }
                false
            },
            None => false,
        }
    }

    /// The transaction that the hex text spells, where it spells one.
    pub fn to_transaction(&self) -> (r: Option<Transaction>)
        ensures
            r is Some <==> hex_transaction(self@) is Some,
            r matches Some(t) ==> hex_transaction(self@) == Some(t@),
    {
        match hex_decode(self.hex.as_str().as_bytes()) {
            Some(bytes) => Transaction::from_bytes(bytes),
            None => None,
        }
    }

    /// The hex text of a transaction's encoding.
    pub fn from_transaction(tx: &Transaction) -> (r: Self)
        ensures
            r@ == hex_text(tx@),
            hex_transaction(r@) == Some(tx@),
    {
        let bytes = tx.bytes();
        proof {
            lemma_hex_text_roundtrip(bytes@);
        }
        WasmTransaction { hex: hex_encode(bytes.as_slice()) }
    }
}

/// A bitwork whose difficulty travels as text.
#[derive(Debug, Clone)]
pub struct WasmBitworkInfo {
    difficulty: String,
    prefix: String,
    ext: Option<String>,
}

impl WasmBitworkInfo {
    /// The difficulty text.
    pub closed spec fn difficulty_text(&self) -> Seq<char> {
        self.difficulty@
    }

    /// The prefix.
    pub closed spec fn prefix_text(&self) -> Seq<char> {
        self.prefix@
    }

    /// The extension.
    pub closed spec fn ext_text(&self) -> Option<Seq<char>> {
        match self.ext {
            Some(e) => Some(e@),
            None => None,
        }
    }

    /// A bitwork with the given difficulty text and prefix and no extension.
    pub fn new(difficulty: String, prefix: String) -> (r: Self)
        ensures
            r.difficulty_text() == difficulty@,
            r.prefix_text() == prefix@,
            r.ext_text() is None,
    {
        WasmBitworkInfo { difficulty, prefix, ext: None }
    }

    /// The difficulty text.
    pub fn get_difficulty(&self) -> (r: String)
        ensures
            r@ == self.difficulty_text(),
    {
        self.difficulty.clone()
    }

    /// The prefix.
    pub fn get_prefix(&self) -> (r: String)
        ensures
            r@ == self.prefix_text(),
    {
        self.prefix.clone()
    }

    /// The extension.
    pub fn get_ext(&self) -> (r: Option<String>)
        ensures
            match r {
                Some(e) => self.ext_text() == Some(e@),
                None => self.ext_text() is None,
            },
    {
        match &self.ext {
            Some(e) => Some(e.clone()),
            None => None,
        }
    }

    /// Sets the extension.
    pub fn set_ext(&mut self, ext: Option<String>)
        ensures
            final(self).difficulty_text() == old(self).difficulty_text(),
            final(self).prefix_text() == old(self).prefix_text(),
            match ext {
                Some(e) => final(self).ext_text() == Some(e@),
                None => final(self).ext_text() is None,
            },
    {
        self.ext = ext;
    }

    /// The bitwork, with the difficulty read as a decimal `u32` (16 where it
    /// does not read as one).
    pub fn to_bitwork_info(&self) -> (r: BitworkInfo)
        ensures
            r.difficulty == match parsed_u32(self.difficulty_text()) {
                Some(d) => d,
                None => 16u32,
            },
            r.prefix@ == self.prefix_text(),
            match r.ext {
                Some(e) => self.ext_text() == Some(e@),
                None => self.ext_text() is None,
            },
    {
        let difficulty = match parse_u32(self.difficulty.as_str()) {
            Some(d) => d,
            None => 16,
        };
        BitworkInfo { difficulty, prefix: self.prefix.clone(), ext: self.get_ext() }
    }

    /// The travelling form of a bitwork: its difficulty written in decimal.
    pub fn from_bitwork_info(bitwork: &BitworkInfo) -> (r: Self)
        ensures
            r.difficulty_text() == decimal_text(bitwork.difficulty as nat),
            r.prefix_text() == bitwork.prefix@,
            match bitwork.ext {
                Some(e) => r.ext_text() == Some(e@),
                None => r.ext_text() is None,
            },
    {
        let ext = match &bitwork.ext {
            Some(e) => Some(e.clone()),
            None => None,
        };
        WasmBitworkInfo {
            difficulty: decimal_string(bitwork.difficulty as u64),
            prefix: bitwork.prefix.clone(),
            ext,
        }
    }
}

/// A realm configuration in the form the browser side builds.
#[derive(Debug, Clone)]
pub struct WasmRealmConfig {
    name: String,
    bitworkc: Option<String>,
    bitworkr: Option<String>,
    container: Option<String>,
    parent: Option<String>,
    parent_owner: Option<String>,
    sats_output: u64,
}

impl WasmRealmConfig {
    /// The configuration as a `RealmConfig`.
    pub closed spec fn config(&self) -> RealmConfig {
        RealmConfig {
            name: self.name,
            bitworkc: self.bitworkc,
            bitworkr: self.bitworkr,
            container: self.container,
            parent: self.parent,
            parent_owner: self.parent_owner,
            sats_output: self.sats_output,
        }
    }

    /// A configuration for the realm `name`, with the dust limit as output
    /// value and nothing else set.
    pub fn new(name: String) -> (r: Self)
        ensures
            r.config() == RealmConfig::new_spec(name),
    {
        WasmRealmConfig {
            name,
            bitworkc: None,
            bitworkr: None,
            container: None,
            parent: None,
            parent_owner: None,
            sats_output: DUST_LIMIT,
        }
    }

    pub fn name(&self) -> (r: String)
        ensures
            r@ == self.config().name@,
    {
        self.name.clone()
    }

    pub fn bitworkc(&self) -> (r: Option<String>)
        ensures
            r == self.config().bitworkc,
    {
        self.bitworkc.clone()
    }

    pub fn bitworkr(&self) -> (r: Option<String>)
        ensures
            r == self.config().bitworkr,
    {
        self.bitworkr.clone()
    }

    pub fn container(&self) -> (r: Option<String>)
        ensures
            r == self.config().container,
    {
        self.container.clone()
    }

    pub fn parent(&self) -> (r: Option<String>)
        ensures
            r == self.config().parent,
    {
        self.parent.clone()
    }

    pub fn parent_owner(&self) -> (r: Option<String>)
        ensures
            r == self.config().parent_owner,
    {
        self.parent_owner.clone()
    }

    pub fn sats_output(&self) -> (r: u64)
        ensures
            r == self.config().sats_output,
    {
        self.sats_output
    }

    /// Sets the commit proof-of-work prefix.
    pub fn with_bitworkc(self, bitworkc: String) -> (r: Self)
        ensures
            r.config() == (RealmConfig { bitworkc: Some(bitworkc), ..self.config() }),
    {
        WasmRealmConfig { bitworkc: Some(bitworkc), ..self }
    }

    /// Sets the reveal proof-of-work prefix.
    pub fn with_bitworkr(self, bitworkr: String) -> (r: Self)
        ensures
            r.config() == (RealmConfig { bitworkr: Some(bitworkr), ..self.config() }),
    {
        WasmRealmConfig { bitworkr: Some(bitworkr), ..self }
    }

    /// Sets the container.
    pub fn with_container(self, container: String) -> (r: Self)
        ensures
            r.config() == (RealmConfig { container: Some(container), ..self.config() }),
    {
        WasmRealmConfig { container: Some(container), ..self }
    }

    /// Sets the parent realm and its owner.
    pub fn with_parent(self, parent: String, parent_owner: Option<String>) -> (r: Self)
        ensures
            r.config() == (RealmConfig { parent: Some(parent), parent_owner: parent_owner, ..self.config() }),
    {
        WasmRealmConfig { parent: Some(parent), parent_owner, ..self }
    }

    /// Sets the value of the realm's output.
    pub fn with_sats_output(self, sats: u64) -> (r: Self)
        ensures
            r.config() == (RealmConfig { sats_output: sats, ..self.config() }),
    {
        WasmRealmConfig { sats_output: sats, ..self }
    }

    /// Checks the realm name as `RealmConfig::validate_name` does; the error
    /// text is "Invalid realm name: " and the broken rule.
    pub fn validate(&self) -> (r: Result<(), String>)
        ensures
            r is Ok <==> realm_name_violation(self.config().name@) is None,
            r matches Err(m) ==> Some(m@.subrange(20, m@.len() as int)) == realm_name_violation(self.config().name@)
                && m@.subrange(0, 20) == "Invalid realm name: "@,
    {
        let config = RealmConfig::new(self.name.clone());
        match config.validate_name() {
            Ok(()) => Ok(()),
            Err(e) => {
                let m = concat("Invalid realm name: ", e);
                proof {
                    reveal_strlit("Invalid realm name: ");
                    assert(m@.subrange(0, 20) =~= "Invalid realm name: "@);
                    assert(m@.subrange(20, m@.len() as int) =~= e@);
                }
                Err(m)
            },
        }
    }

    /// The configuration as a `RealmConfig`.
    pub fn into_realm_config(self) -> (r: RealmConfig)
        ensures
            r == self.config(),
    {
        RealmConfig {
            name: self.name,
            bitworkc: self.bitworkc,
            bitworkr: self.bitworkr,
            container: self.container,
            parent: self.parent,
            parent_owner: self.parent_owner,
            sats_output: self.sats_output,
        }
    }

    /// The browser form of a `RealmConfig`.
    pub fn from_realm_config(config: RealmConfig) -> (r: Self)
        ensures
            r.config() == config,
            r == Self::from_config_spec(config),
    {
        WasmRealmConfig {
            name: config.name,
            bitworkc: config.bitworkc,
            bitworkr: config.bitworkr,
            container: config.container,
            parent: config.parent,
            parent_owner: config.parent_owner,
            sats_output: config.sats_output,
        }
    }
}

impl From<WasmRealmConfig> for RealmConfig {
    fn from(w: WasmRealmConfig) -> (r: RealmConfig) {
        w.into_realm_config()
    }
}

impl vstd::std_specs::convert::FromSpecImpl<WasmRealmConfig> for RealmConfig {
    open spec fn obeys_from_spec() -> bool {
        true
    }

    open spec fn from_spec(w: WasmRealmConfig) -> RealmConfig {
        w.config()
    }
}

impl From<RealmConfig> for WasmRealmConfig {
    fn from(config: RealmConfig) -> (r: WasmRealmConfig) {
        WasmRealmConfig::from_realm_config(config)
    }
}

impl vstd::std_specs::convert::FromSpecImpl<RealmConfig> for WasmRealmConfig {
    open spec fn obeys_from_spec() -> bool {
        true
    }

    open spec fn from_spec(config: RealmConfig) -> WasmRealmConfig {
        WasmRealmConfig::from_config_spec(config)
    }
}

impl WasmRealmConfig {
    /// The browser form that holds `config`.
    pub closed spec fn from_config_spec(config: RealmConfig) -> WasmRealmConfig {
        WasmRealmConfig {
            name: config.name,
            bitworkc: config.bitworkc,
            bitworkr: config.bitworkr,
            container: config.container,
            parent: config.parent,
            parent_owner: config.parent_owner,
            sats_output: config.sats_output,
        }
    }
}

/// A transaction written as hex reads back as the same transaction: what
/// `WasmTransaction::from_transaction` (or `MiningResult::with_transaction`)
/// writes, `to_transaction` (or `get_transaction`) gives back unchanged.
pub proof fn law_transaction_hex_roundtrip(b: Seq<u8>)
    requires
        tx_decodes(b),
    ensures
        hex_transaction(hex_text(b)) == Some(b),
{
    lemma_hex_text_roundtrip(b);
}

/// A bitwork sent to the browser side and read back is the same bitwork:
/// the difficulty that `WasmBitworkInfo::from_bitwork_info` writes in
/// decimal, `to_bitwork_info` reads back as the same number (prefix and
/// extension travel as they are).
pub proof fn law_bitwork_difficulty_roundtrip(b: BitworkInfo)
    ensures
        parsed_u32(decimal_text(b.difficulty as nat)) == Some(b.difficulty),
{
    lemma_decimal_parses_back(b.difficulty);
}

/// A realm configuration converted to its browser form and back is
/// unchanged, and so is a browser form converted to a configuration and back.
pub proof fn law_realm_config_roundtrip(c: RealmConfig, w: WasmRealmConfig)
    ensures
        WasmRealmConfig::from_config_spec(c).config() == c,
        WasmRealmConfig::from_config_spec(w.config()) == w,
{
}

} // verus!
