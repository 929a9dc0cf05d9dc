//! What the library takes from the `bitcoin` crate: transaction decoding and
//! ids, script templates and script pushes.

use vstd::prelude::*;
use vstd::utf8::encode_utf8;
use crate::codec::{hex_decoded, hex_text, reversed};
use crate::types::transaction::{OutPoint, TxOut};
use crate::text::colon_count;

verus! {

/// The bytes decode as one consensus-encoded transaction, with nothing left over.
pub uninterp spec fn tx_decodes(b: Seq<u8>) -> bool;

/// Number of inputs of the transaction that `b` encodes.
pub uninterp spec fn tx_input_count(b: Seq<u8>) -> nat;

/// Number of outputs of the transaction that `b` encodes.
pub uninterp spec fn tx_output_count(b: Seq<u8>) -> nat;

/// The transaction id of the transaction that `b` encodes, in internal byte
/// order (the double SHA-256 of its encoding without witnesses).
pub uninterp spec fn tx_txid(b: Seq<u8>) -> Seq<u8>;

/// The transaction id as `Txid` displays it: lowercase hex, back to front.
pub open spec fn txid_text(b: Seq<u8>) -> Seq<char> {
    hex_text(reversed(tx_txid(b)))
}

/// The consensus encoding of the transaction of `version` and `lock_time`
/// whose inputs spend these outpoints with these sequence numbers (empty
/// script and witness) and whose outputs pay these values to these scripts.
pub uninterp spec fn tx_encoding(
    version: i32,
    lock_time: u32,
    inputs: Seq<(OutPoint, u32)>,
    outputs: Seq<(u64, Seq<u8>)>,
) -> Seq<u8>;

/// The encoding of the transaction that `b` encodes, with the sequence number
/// of its first input set to `sequence`.
pub uninterp spec fn tx_with_first_sequence(b: Seq<u8>, sequence: u32) -> Seq<u8>;

/// `bitcoin::consensus::deserialize::<Transaction>` succeeds on `b`.
#[verifier::external_body]
pub(crate) fn decodes_as_transaction(b: &[u8]) -> (r: bool)
    ensures
        r == tx_decodes(b@),
{
    bitcoin::consensus::deserialize::<bitcoin::Transaction>(b).is_ok()
}

/// The number of inputs (`input.len()`) of the decoded transaction.
#[verifier::external_body]
pub(crate) fn input_count(b: &[u8]) -> (r: usize)
    requires
        tx_decodes(b@),
    ensures
        r == tx_input_count(b@),
{
    bitcoin::consensus::deserialize::<bitcoin::Transaction>(b).unwrap().input.len()
}

/// The number of outputs (`output.len()`) of the decoded transaction.
#[verifier::external_body]
pub(crate) fn output_count(b: &[u8]) -> (r: usize)
    requires
        tx_decodes(b@),
    ensures
        r == tx_output_count(b@),
{
    bitcoin::consensus::deserialize::<bitcoin::Transaction>(b).unwrap().output.len()
}

/// `Transaction::txid().to_byte_array()` of the decoded transaction.
#[verifier::external_body]
pub(crate) fn txid_raw(b: &[u8]) -> (r: [u8; 32])
    requires
        tx_decodes(b@),
    ensures
        r@ == tx_txid(b@),
{
    let tx = bitcoin::consensus::deserialize::<bitcoin::Transaction>(b).unwrap();
    bitcoin::hashes::Hash::to_byte_array(tx.txid())
}

/// The outputs as (value, script) pairs.
pub open spec fn outputs_view(outputs: Seq<TxOut>) -> Seq<(u64, Seq<u8>)> {
    Seq::new(outputs.len(), |i: int| (outputs[i].value, outputs[i].script_pubkey@))
}

/// Builds the `Transaction` (`Version(version)`, `LockTime::from_consensus(lock_time)`,
/// one `TxIn` per input with empty script and witness, one `TxOut` per
/// output) and serializes it. Without witnesses it is written in the legacy
/// form, and with no inputs in the segwit form (a marker and a flag), so the
/// bytes decode again, to as many inputs and outputs.
#[verifier::external_body]
pub(crate) fn encode_transaction(version: i32, lock_time: u32, inputs: &[(OutPoint, u32)], outputs: &[TxOut]) -> (r: Vec<u8>)
    ensures
        r@ == tx_encoding(version, lock_time, inputs@, outputs_view(outputs@)),
        tx_decodes(r@),
        tx_input_count(r@) == inputs@.len(),
        tx_output_count(r@) == outputs@.len(),
{
    let input = inputs.iter().map(|(o, seq)| bitcoin::TxIn {
        previous_output: bitcoin::OutPoint::new(bitcoin::hashes::Hash::from_byte_array(o.txid), o.vout),
        script_sig: bitcoin::ScriptBuf::new(),
        sequence: bitcoin::Sequence(*seq),
        witness: bitcoin::Witness::new(),
    }).collect();
    let output = outputs.iter().map(|o| bitcoin::TxOut {
        value: bitcoin::Amount::from_sat(o.value),
        script_pubkey: bitcoin::ScriptBuf::from_bytes(o.script_pubkey.clone()),
    }).collect();
    let version = bitcoin::transaction::Version(version);
    let lock_time = bitcoin::absolute::LockTime::from_consensus(lock_time);
    bitcoin::consensus::serialize(&bitcoin::Transaction { version, lock_time, input, output })
}

/// `Transaction::txid().to_string()` of the decoded transaction.
#[verifier::external_body]
pub(crate) fn txid_string(b: &[u8]) -> (r: String)
    requires
        tx_decodes(b@),
    ensures
        r@ == txid_text(b@),
{
    bitcoin::consensus::deserialize::<bitcoin::Transaction>(b).unwrap().txid().to_string()
}

/// Decodes the transaction, sets `input[0].sequence` and encodes it again.
/// The result decodes, with as many inputs and outputs as before.
#[verifier::external_body]
pub(crate) fn with_first_sequence(b: &[u8], sequence: u32) -> (r: Vec<u8>)
    requires
        tx_decodes(b@),
        tx_input_count(b@) > 0,
    ensures
        r@ == tx_with_first_sequence(b@, sequence),
        tx_decodes(r@),
        tx_first_sequence(r@) == sequence,
        tx_input_count(r@) == tx_input_count(b@),
        tx_output_count(r@) == tx_output_count(b@),
{
    let mut tx = bitcoin::consensus::deserialize::<bitcoin::Transaction>(b).unwrap();
    tx.input[0].sequence = bitcoin::Sequence(sequence);
    bitcoin::consensus::serialize(&tx)
}

/// A pay-to-public-key-hash script: `OP_DUP OP_HASH160 <20 bytes> OP_EQUALVERIFY OP_CHECKSIG`.
pub open spec fn p2pkh_template(s: Seq<u8>) -> bool {
    s.len() == 25 && s[0] == 0x76 && s[1] == 0xa9 && s[2] == 0x14 && s[23] == 0x88 && s[24] == 0xac
}

/// A version 0 pay-to-witness-public-key-hash script: `OP_0 <20 bytes>`.
pub open spec fn p2wpkh_template(s: Seq<u8>) -> bool {
    s.len() == 22 && s[0] == 0x00 && s[1] == 0x14
}

/// A version 1 pay-to-taproot script: `OP_1 <32 bytes>`.
pub open spec fn p2tr_template(s: Seq<u8>) -> bool {
    s.len() == 34 && s[0] == 0x51 && s[1] == 0x20
}

/// `Script::is_p2pkh`.
#[verifier::external_body]
pub(crate) fn is_p2pkh(script: &[u8]) -> (r: bool)
    ensures
        r == p2pkh_template(script@),
{
    bitcoin::Script::from_bytes(script).is_p2pkh()
}

/// `Script::is_p2wpkh` (formerly `is_v0_p2wpkh`).
#[verifier::external_body]
pub(crate) fn is_p2wpkh(script: &[u8]) -> (r: bool)
    ensures
        r == p2wpkh_template(script@),
{
    bitcoin::Script::from_bytes(script).is_p2wpkh()
}

/// `Script::is_p2tr` (formerly `is_v1_p2tr`).
#[verifier::external_body]
pub(crate) fn is_p2tr(script: &[u8]) -> (r: bool)
    ensures
        r == p2tr_template(script@),
{
    bitcoin::Script::from_bytes(script).is_p2tr()
}

/// The bytes that push `data` onto the script stack: a length opcode
/// (`OP_PUSHBYTES_n`, `OP_PUSHDATA1`, `OP_PUSHDATA2` or `OP_PUSHDATA4`, the
/// length little-endian) followed by the data.
pub open spec fn push_encoding(data: Seq<u8>) -> Seq<u8> {
    let n = data.len();
    if n < 0x4c {
        seq![n as u8] + data
    } else if n < 0x100 {
        seq![0x4cu8, n as u8] + data
    } else if n < 0x10000 {
        seq![0x4du8, (n % 0x100) as u8, (n / 0x100) as u8] + data
    } else {
        seq![0x4eu8, (n % 0x100) as u8, ((n / 0x100) % 0x100) as u8, ((n / 0x10000) % 0x100) as u8, (n / 0x1000000) as u8] + data
    }
}

/// `ScriptBuf::push_slice`: appends the push of `data` to the script.
#[verifier::external_body]
pub(crate) fn push_slice(script: &mut Vec<u8>, data: &[u8])
    requires
        data@.len() < 0x1_0000_0000,
    ensures
        final(script)@ == old(script)@ + push_encoding(data@),
{
    let mut s = bitcoin::ScriptBuf::from_bytes(std::mem::take(script));
    s.push_slice(<&bitcoin::script::PushBytes>::try_from(data).unwrap());
    *script = s.into_bytes();
}

/// The transaction id that `Txid::from_str` reads from `s`, in internal byte
/// order: 64 hex digits, displayed back to front.
pub open spec fn txid_bytes(s: Seq<char>) -> Option<Seq<u8>> {
    match hex_decoded(encode_utf8(s)) {
        Some(d) => if d.len() == 32 { Some(reversed(d)) } else { None },
        None => None,
    }
}

/// The text of the error that `Txid::from_str` gives for `s`.
pub uninterp spec fn txid_error_text(s: Seq<char>) -> Seq<char>;

/// `Txid::from_str`: the text must be 64 hex digits (either case); the bytes
/// they spell are taken back to front. Where it fails, the error's text.
#[verifier::external_body]
pub(crate) fn parse_txid(s: &str) -> (r: Result<[u8; 32], String>)
    ensures
        match txid_bytes(s@) {
            Some(b) => r matches Ok(t) && t@ == b,
            None => r matches Err(e) && e@ == txid_error_text(s@),
        },
{
    match <bitcoin::Txid as std::str::FromStr>::from_str(s) {
        Ok(t) => Ok(bitcoin::hashes::Hash::to_byte_array(t)),
        Err(e) => Err(e.to_string()),
    }
}

/// The 32 bytes are the x coordinate of a point of the secp256k1 curve.
pub uninterp spec fn xonly_key_valid(b: Seq<u8>) -> bool;

/// `XOnlyPublicKey::from_slice`: 32 bytes that name a curve point; the key
/// serializes back to the same bytes. Its one error reads "malformed public key".
#[verifier::external_body]
pub(crate) fn parse_xonly_key(b: &[u8]) -> (r: Option<[u8; 32]>)
    ensures
        match r {
            Some(k) => b@.len() == 32 && xonly_key_valid(b@) && k@ == b@,
            None => !(b@.len() == 32 && xonly_key_valid(b@)),
        },
{
    match bitcoin::key::XOnlyPublicKey::from_slice(b) {
        Ok(k) => Some(k.serialize()),
        Err(_) => None,
    }
}

/// What `OutPoint::from_str` makes of `s`: the outpoint, or the text of its error.
pub uninterp spec fn outpoint_parse(s: Seq<char>) -> Result<OutPoint, Seq<char>>;

/// `OutPoint::from_str`. It reads `<txid>:<vout>` and so succeeds only where
/// `s` has exactly one colon; where `s` is at most 75 bytes and the colon
/// count is wrong, the error reads "OutPoint not in <txid>:<vout> format".
#[verifier::external_body]
pub(crate) fn parse_outpoint(s: &str) -> (r: Result<OutPoint, String>)
    ensures
        match r {
            Ok(o) => outpoint_parse(s@) == Ok::<OutPoint, Seq<char>>(o) && colon_count(s@) == 1,
            Err(e) => outpoint_parse(s@) == Err::<OutPoint, Seq<char>>(e@)
                && (encode_utf8(s@).len() <= 75 && colon_count(s@) != 1
                    ==> e@ == "OutPoint not in <txid>:<vout> format"@),
        },
{
    match <bitcoin::OutPoint as std::str::FromStr>::from_str(s) {
        Ok(o) => Ok(OutPoint { txid: bitcoin::hashes::Hash::to_byte_array(o.txid), vout: o.vout }),
        Err(e) => Err(e.to_string()),
    }
}

/// The networks that an address can belong to.
#[derive(Debug, Clone, Copy, PartialEq, Eq, Structural)]
pub enum BitcoinNetwork {
    Bitcoin,
    Testnet,
    Signet,
    Regtest,
}

/// The pay-to-taproot output script for the internal key `key` committing to
/// a script tree of the single leaf `leaf` (leaf version TapScript), or `None`
/// where `key` is no valid x-only public key.
pub uninterp spec fn taproot_leaf_output(key: Seq<u8>, leaf: Seq<u8>) -> Option<Seq<u8>>;

/// Parses `key` with `XOnlyPublicKey::from_slice`, builds a tree with
/// `TaprootBuilder::add_leaf(0, leaf)` and `finalize`, and returns
/// `ScriptBuf::new_p2tr` for its merkle root. A single leaf at depth 0 always
/// completes the tree, so only the key can make it fail. The result is
/// `OP_1` followed by a push of the 32-byte output key; which key that is,
/// the tweak decides and nothing here states.
#[verifier::external_body]
pub(crate) fn taproot_output(key: &[u8; 32], leaf: &[u8]) -> (r: Option<Vec<u8>>)
    ensures
        match r {
            Some(s) => taproot_leaf_output(key@, leaf@) == Some(s@) && p2tr_template(s@),
            None => taproot_leaf_output(key@, leaf@) is None,
        },
{
    let k = bitcoin::key::XOnlyPublicKey::from_slice(key).ok()?;
    let secp = bitcoin::secp256k1::Secp256k1::new();
    let builder = bitcoin::taproot::TaprootBuilder::new();
    let builder = builder.add_leaf(0, bitcoin::ScriptBuf::from_bytes(leaf.to_vec())).ok()?;
    let info = builder.finalize(&secp, k).ok()?;
    Some(bitcoin::ScriptBuf::new_p2tr(&secp, k, info.merkle_root()).into_bytes())
}

/// For the internal key `key` and the script tree of the single leaf
/// `leaf`: the tree's merkle root and the serialized control block that
/// spends the leaf; `None` where `key` is no valid x-only public key.
pub uninterp spec fn taproot_leaf_spend(key: Seq<u8>, leaf: Seq<u8>) -> Option<(Seq<u8>, Seq<u8>)>;

/// Parses `key` with `XOnlyPublicKey::from_slice`, builds a tree with
/// `TaprootBuilder::add_leaf(0, leaf)` and `finalize`, and gives its
/// `merkle_root()` and the `control_block` of `(leaf, TapScript)`,
/// serialized. Which root and block come out is named, not stated.
#[verifier::external_body]
pub(crate) fn taproot_spend(key: &[u8; 32], leaf: &[u8]) -> (r: Option<([u8; 32], Vec<u8>)>)
    ensures
        match r {
            Some((root, block)) => taproot_leaf_spend(key@, leaf@) == Some((root@, block@)),
            None => taproot_leaf_spend(key@, leaf@) is None,
        },
{
    let k = bitcoin::key::XOnlyPublicKey::from_slice(key).ok()?;
    let secp = bitcoin::secp256k1::Secp256k1::new();
    let script = bitcoin::ScriptBuf::from_bytes(leaf.to_vec());
    let info = bitcoin::taproot::TaprootBuilder::new().add_leaf(0, script.clone()).ok()?.finalize(&secp, k).ok()?;
    let root = info.merkle_root()?;
    let block = info.control_block(&(script, bitcoin::taproot::LeafVersion::TapScript))?;
    Some((bitcoin::hashes::Hash::to_byte_array(root), block.serialize()))
}

/// The address that `Address::from_script` gives for `script` on `network`,
/// as it displays.
pub uninterp spec fn address_text(script: Seq<u8>, network: BitcoinNetwork) -> Seq<char>;

/// `Address::from_script(script, network)`, displayed. It recognises
/// pay-to-public-key-hash, pay-to-script-hash and witness program scripts, so
/// a pay-to-taproot script always has an address.
#[verifier::external_body]
pub(crate) fn script_address(script: &[u8], network: BitcoinNetwork) -> (r: Option<String>)
    ensures
        p2tr_template(script@) ==> r is Some,
        r matches Some(a) ==> a@ == address_text(script@, network),
{
    let net = match network {
        BitcoinNetwork::Bitcoin => bitcoin::Network::Bitcoin,
        BitcoinNetwork::Testnet => bitcoin::Network::Testnet,
        BitcoinNetwork::Signet => bitcoin::Network::Signet,
        BitcoinNetwork::Regtest => bitcoin::Network::Regtest,
    };
    match bitcoin::Address::from_script(bitcoin::Script::from_bytes(script), net) {
        Ok(a) => Some(a.to_string()),
        Err(_) => None,
    }
}

/// The text of the error that `ScriptBuf::from_hex` gives for `s`.
pub uninterp spec fn script_hex_error(s: Seq<char>) -> Seq<char>;

/// `ScriptBuf::from_hex`: the bytes that the hex text spells (digits of
/// either case, an even count), or the text of the error.
#[verifier::external_body]
pub(crate) fn script_from_hex(s: &str) -> (r: Result<Vec<u8>, String>)
    ensures
        match hex_decoded(encode_utf8(s@)) {
            Some(b) => r matches Ok(v) && v@ == b,
            None => r matches Err(e) && e@ == script_hex_error(s@),
        },
{
    match bitcoin::ScriptBuf::from_hex(s) {
        Ok(script) => Ok(script.into_bytes()),
        Err(e) => Err(e.to_string()),
    }
}

/// The text of the error that `consensus::deserialize::<Transaction>` gives for `b`.
pub uninterp spec fn tx_decode_error(b: Seq<u8>) -> Seq<char>;

/// `consensus::deserialize::<Transaction>`'s error, as text, where `b` does
/// not decode.
#[verifier::external_body]
pub(crate) fn transaction_decode_failure(b: &[u8]) -> (r: Option<String>)
    ensures
        match r {
            None => tx_decodes(b@),
            Some(e) => !tx_decodes(b@) && e@ == tx_decode_error(b@),
        },
{
    match bitcoin::consensus::deserialize::<bitcoin::Transaction>(b) {
        Ok(_) => None,
        Err(e) => Some(e.to_string()),
    }
}

/// What the library reads of each input of the PSBT that `b` serializes,
/// in order: whether it has a final script sig, whether it has a final
/// script witness, whether it has a witness UTXO, how many outputs its
/// non-witness UTXO has (if it has one), and the output index that the
/// unsigned transaction spends there. `None` where `b` is no PSBT.
pub uninterp spec fn psbt_input_states(b: Seq<u8>) -> Option<Seq<(bool, bool, bool, Option<usize>, u32)>>;

/// `Psbt::deserialize`, reading off for each input (paired with the unsigned
/// transaction's input) `final_script_sig.is_some()`,
/// `final_script_witness.is_some()`, `witness_utxo.is_some()`, the output
/// count of `non_witness_utxo` and `previous_output.vout`. The text of a
/// parse error is kept but not stated.
#[verifier::external_body]
pub(crate) fn psbt_inputs(b: &[u8]) -> (r: Result<Vec<(bool, bool, bool, Option<usize>, u32)>, String>)
    ensures
        match r {
            Ok(v) => psbt_input_states(b@) == Some(v@),
            Err(_) => psbt_input_states(b@) is None,
        },
{
    match bitcoin::psbt::Psbt::deserialize(b) {
        Ok(p) => Ok(p.unsigned_tx.input.iter().zip(p.inputs.iter()).map(|(t, i)| {
            let spent = i.non_witness_utxo.as_ref().map(|u| u.output.len());
            (i.final_script_sig.is_some(), i.final_script_witness.is_some(), i.witness_utxo.is_some(), spent, t.previous_output.vout)
        }).collect()),
        Err(e) => Err(e.to_string()),
    }
}

/// Some input of `f` has no witness UTXO and a non-witness UTXO without the
/// output that the input spends.
pub open spec fn lacks_funding_output(f: Seq<(bool, bool, bool, Option<usize>, u32)>) -> bool {
    exists|i: int| 0 <= i < f.len() && !f[i].2 && (f[i].3 matches Some(n) && f[i].4 >= n)
}

/// What `Psbt::deserialize(b)` and then `extract_tx()` give: the encoding
/// of the extracted transaction, or the text of the error.
pub uninterp spec fn psbt_extracted(b: Seq<u8>) -> Result<Seq<u8>, Seq<char>>;

/// `Psbt::deserialize`, then `extract_tx`, then `consensus::serialize`: the
/// result is tied to the named outcome. `extract_tx` reaches `unreachable!`
/// where the fee cannot be read because an input's non-witness UTXO lacks
/// the spent output, so such PSBTs are left out. Nothing is said of whether the
/// encoding reads back: a PSBT may hold a transaction with no input, whose
/// encoding reads as a witness transaction.
#[verifier::external_body]
pub(crate) fn extract_psbt_transaction(b: &[u8]) -> (r: Result<Vec<u8>, String>)
    requires
        psbt_input_states(b@) matches Some(f) && !lacks_funding_output(f),
    ensures
        match r {
            Ok(t) => psbt_extracted(b@) == Ok::<Seq<u8>, Seq<char>>(t@),
            Err(e) => psbt_extracted(b@) == Err::<Seq<u8>, Seq<char>>(e@),
        },
{
    let psbt = match bitcoin::psbt::Psbt::deserialize(b) {
        Ok(p) => p,
        Err(e) => return Err(e.to_string()),
    };
    match psbt.extract_tx() {
        Ok(tx) => Ok(bitcoin::consensus::serialize(&tx)),
        Err(e) => Err(e.to_string()),
    }
}

/// What `PublicKey::from_str(s)` gives, taken to its x-only key: the 32
/// bytes of the key's x coordinate, or the text of the error.
pub uninterp spec fn public_key_xonly(s: Seq<char>) -> Result<Seq<u8>, Seq<char>>;

/// `PublicKey::from_str(s)`, then `inner.x_only_public_key()` serialized.
#[verifier::external_body]
pub(crate) fn xonly_of_public_key(s: &str) -> (r: Result<[u8; 32], String>)
    ensures
        match r {
            Ok(k) => public_key_xonly(s@) == Ok::<Seq<u8>, Seq<char>>(k@),
            Err(e) => public_key_xonly(s@) == Err::<Seq<u8>, Seq<char>>(e@),
        },
{
    match <bitcoin::PublicKey as std::str::FromStr>::from_str(s) {
        Ok(k) => Ok(k.inner.x_only_public_key().0.serialize()),
        Err(e) => Err(e.to_string()),
    }
}

/// The sequence number of the first input of the transaction that `b`
/// encodes.
pub uninterp spec fn tx_first_sequence(b: Seq<u8>) -> u32;

/// `input[0].sequence` of the decoded transaction.
#[verifier::external_body]
pub(crate) fn first_sequence(b: &[u8]) -> (r: u32)
    requires
        tx_decodes(b@),
        tx_input_count(b@) > 0,
    ensures
        r == tx_first_sequence(b@),
{
    bitcoin::consensus::deserialize::<bitcoin::Transaction>(b).unwrap().input[0].sequence.0
}

/// How reading an address fails: its text does not parse, or it belongs to
/// another network; with the error's text.
#[derive(Debug)]
pub enum AddressFailure {
    Parse(String),
    Network(String),
}

/// What reading `s` as an address of `network` gives: the address's output
/// script, or the step that failed (`true` for parsing, `false` for the
/// network) with the text of its error.
pub uninterp spec fn address_reading(s: Seq<char>, network: BitcoinNetwork) -> Result<Seq<u8>, (bool, Seq<char>)>;

/// `Address::from_str(s)`, then `require_network(network)`, then
/// `script_pubkey()`.
#[verifier::external_body]
pub(crate) fn read_address(s: &str, network: BitcoinNetwork) -> (r: Result<Vec<u8>, AddressFailure>)
    ensures
        match r {
            Ok(b) => address_reading(s@, network) == Ok::<Seq<u8>, (bool, Seq<char>)>(b@),
            Err(AddressFailure::Parse(m)) => address_reading(s@, network) == Err::<Seq<u8>, (bool, Seq<char>)>((true, m@)),
            Err(AddressFailure::Network(m)) => address_reading(s@, network) == Err::<Seq<u8>, (bool, Seq<char>)>((false, m@)),
        },
{
    let net = match network {
        BitcoinNetwork::Bitcoin => bitcoin::Network::Bitcoin,
        BitcoinNetwork::Testnet => bitcoin::Network::Testnet,
        BitcoinNetwork::Signet => bitcoin::Network::Signet,
        BitcoinNetwork::Regtest => bitcoin::Network::Regtest,
    };
    let unchecked = match s.parse::<bitcoin::Address<bitcoin::address::NetworkUnchecked>>() {
        Ok(a) => a,
        Err(e) => return Err(AddressFailure::Parse(e.to_string())),
    };
    match unchecked.require_network(net) {
        Ok(a) => Ok(a.script_pubkey().to_bytes()),
        Err(e) => Err(AddressFailure::Network(e.to_string())),
    }
}

} // verus!
