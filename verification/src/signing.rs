//! What the library makes of a wallet's answers: a signed PSBT, a signed
//! transaction, a public key; and the transaction that a signed PSBT yields.

use vstd::prelude::*;
use vstd::utf8::encode_utf8;
use crate::chain::{
    extract_psbt_transaction, lacks_funding_output, psbt_extracted, psbt_input_states, psbt_inputs, public_key_xonly, transaction_decode_failure,
    tx_decode_error, tx_decodes, xonly_of_public_key,
};
use crate::codec::{base64_decode, base64_reading, hex_decode_reporting, hex_decoded, hex_error_text};
use crate::errors::{Error, Result};
use crate::text::{char_len, concat, substring, to_owned_string};
use crate::types::transaction::Transaction;
use crate::types::wasm::{hex_bytes, hex_transaction};

verus! {

/// Some input has neither a final script sig nor a final witness.
pub open spec fn some_input_unsigned(f: Seq<(bool, bool, bool, Option<usize>, u32)>) -> bool {
    exists|i: int| 0 <= i < f.len() && !f[i].0 && !f[i].1
}

/// Index of the first input of `f` that has neither, if any.
fn first_unsigned(f: &Vec<(bool, bool, bool, Option<usize>, u32)>) -> (r: Option<usize>)
    ensures
        r is Some <==> some_input_unsigned(f@),
{
    let n = f.len();
    let mut i: usize = 0;
    while i < n
        invariant
            n == f@.len(),
            i <= n,
            forall|j: int| 0 <= j < i ==> f@[j].0 || f@[j].1,
        decreases n - i,
    {
        if !f[i].0 && !f[i].1 {
            return Some(i);
        }
        i = i + 1;
    }
    None
}

/// Checks a PSBT that a wallet signed and gave back as hex text: it must
/// decode, parse, and have every input finalized (with a final script sig or
/// a final witness). Gives the PSBT's bytes.
pub fn check_signed_psbt(answer: &[u8]) -> (r: Result<Vec<u8>>)
    ensures
        match hex_decoded(answer@) {
            None => r matches Err(Error::WalletError(m)) && m@ == "Failed to decode hex PSBT: "@ + hex_error_text(answer@),
            Some(b) => match psbt_input_states(b) {
                None => r matches Err(Error::WalletError(_)),
                Some(f) => if some_input_unsigned(f) {
                    r matches Err(Error::WalletError(m)) && m@ == "PSBT signing incomplete"@
                } else {
                    r matches Ok(v) && v@ == b
                },
            },
        },
{
    let bytes = match hex_decode_reporting(answer) {
        Ok(b) => b,
        Err(e) => return Err(Error::WalletError(concat("Failed to decode hex PSBT: ", e.as_str()))),
    };
    let finals = match psbt_inputs(bytes.as_slice()) {
        Ok(f) => f,
        Err(e) => return Err(Error::WalletError(concat("Failed to parse signed PSBT: ", e.as_str()))),
    };
    if first_unsigned(&finals).is_some() {
        return Err(Error::WalletError(to_owned_string("PSBT signing incomplete")));
    }
    Ok(bytes)
}

/// Reads a PSBT that a wallet signed and gave back as base64 text: it must
/// decode and parse. Gives the PSBT's bytes.
pub fn signed_psbt_base64(answer: &str) -> (r: Result<Vec<u8>>)
    ensures
        match base64_reading(answer@) {
            Err(e) => r matches Err(Error::WalletError(m)) && m@ == "Failed to decode base64 PSBT: "@ + e,
            Ok(b) => match psbt_input_states(b) {
                None => r matches Err(Error::WalletError(_)),
                Some(_) => r matches Ok(v) && v@ == b,
            },
        },
{
    let bytes = match base64_decode(answer) {
        Ok(b) => b,
        Err(e) => return Err(Error::WalletError(concat("Failed to decode base64 PSBT: ", e.as_str()))),
    };
    match psbt_inputs(bytes.as_slice()) {
        Ok(_) => Ok(bytes),
        Err(e) => Err(Error::WalletError(concat("Failed to parse signed PSBT: ", e.as_str()))),
    }
}

/// Reads a transaction that a wallet signed and gave back as hex text.
pub fn signed_transaction(answer_hex: &str) -> (r: Result<Transaction>)
    ensures
        match hex_transaction(answer_hex@) {
            Some(b) => r matches Ok(t) && t@ == b,
            None => r is Err,
        },
        match hex_bytes(answer_hex@) {
            None => r matches Err(Error::HexError(m)) && m@ == hex_error_text(encode_utf8(answer_hex@)),
            Some(b) => !tx_decodes(b) ==> (r matches Err(Error::SerializationError(m)) && m@ == tx_decode_error(b)),
        },
{
    let bytes = match hex_decode_reporting(answer_hex.as_bytes()) {
        Ok(b) => b,
        Err(e) => return Err(Error::HexError(e)),
    };
    if let Some(e) = transaction_decode_failure(bytes.as_slice()) {
        return Err(Error::SerializationError(e));
    }
    match Transaction::from_bytes(bytes) {
        Some(t) => Ok(t),
        None => Err(Error::SerializationError(to_owned_string("Transaction does not decode"))),
    }
}

/// Index of the first input of `f` with no witness UTXO and a non-witness
/// UTXO that lacks the spent output, if any.
fn first_without_funding_output(f: &Vec<(bool, bool, bool, Option<usize>, u32)>) -> (r: Option<usize>)
    ensures
        r is Some <==> lacks_funding_output(f@),
{
    let n = f.len();
    let mut i: usize = 0;
    while i < n
        invariant
            n == f@.len(),
            i <= n,
            forall|j: int| 0 <= j < i ==> !(!f@[j].2 && (f@[j].3 matches Some(c) && f@[j].4 >= c)),
        decreases n - i,
    {
        if !f[i].2 {
            if let Some(c) = f[i].3 {
                if f[i].4 as usize >= c {
                    return Some(i);
                }
            }
        }
        i = i + 1;
    }
    None
}

/// The transaction that a signed PSBT yields; `label` names it in the error.
/// A PSBT whose fee cannot be read because an input's non-witness UTXO
/// lacks the spent output is refused, and so is an extracted transaction
/// whose encoding does not read back (one with no input reads as a witness
/// transaction).
pub fn extract_signed_transaction(psbt: &[u8], label: &str) -> (r: Result<Transaction>)
    ensures
        match psbt_input_states(psbt@) {
            None => r matches Err(Error::TransactionError(_)),
            Some(f) => if lacks_funding_output(f) {
                r matches Err(Error::TransactionError(m))
                    && m@ == "Failed to extract "@ + label@ + " tx: "@ + "a non-witness UTXO lacks the spent output"@
            } else {
                match psbt_extracted(psbt@) {
                    Ok(t) => if tx_decodes(t) {
                        r matches Ok(tx) && tx@ == t
                    } else {
                        r matches Err(Error::TransactionError(m)) && m@ == "Extracted transaction does not decode"@
                    },
                    Err(e) => r matches Err(Error::TransactionError(m)) && m@ == "Failed to extract "@ + label@ + " tx: "@ + e,
                }
            },
        },
{
    let a = concat("Failed to extract ", label);
    let prefix = concat(a.as_str(), " tx: ");
    let states = match psbt_inputs(psbt) {
        Ok(f) => f,
        Err(e) => return Err(Error::TransactionError(concat(prefix.as_str(), e.as_str()))),
    };
    if first_without_funding_output(&states).is_some() {
        return Err(Error::TransactionError(concat(prefix.as_str(), "a non-witness UTXO lacks the spent output")));
    }
    match extract_psbt_transaction(psbt) {
        Ok(t) => match Transaction::from_bytes(t) {
            Some(tx) => Ok(tx),
            None => Err(Error::TransactionError(to_owned_string("Extracted transaction does not decode"))),
        },
        Err(e) => Err(Error::TransactionError(concat(prefix.as_str(), e.as_str()))),
    }
}

/// `s` with every leading "0x" removed, as `trim_start_matches("0x")` does.
pub open spec fn without_hex_prefixes(s: Seq<char>) -> Seq<char>
    decreases s.len(),
{
    if s.len() >= 2 && s[0] == '0' && s[1] == 'x' {
        without_hex_prefixes(s.subrange(2, s.len() as int))
    } else {
        s
    }
}

/// `s` with every leading "0x" removed.
fn trim_hex_prefixes(s: &str) -> (r: String)
    ensures
        r@ == without_hex_prefixes(s@),
{
    let n = char_len(s);
    let mut i: usize = 0;
    proof {
        assert(s@.subrange(0, n as int) =~= s@);
    }
    while n - i >= 2 && crate::text::char_at(s, i) == '0' && crate::text::char_at(s, i + 1) == 'x'
        invariant
            n == s@.len(),
            i <= n,
            without_hex_prefixes(s@.subrange(i as int, n as int)) == without_hex_prefixes(s@),
        decreases n - i,
    {
        proof {
            let t = s@.subrange(i as int, n as int);
            assert(t.subrange(2, t.len() as int) =~= s@.subrange(i + 2, n as int));
        }
        i = i + 2;
    }
    substring(s, i, n)
}

/// The x-only key of the public key that the Wizz wallet gives as hex text
/// (leading "0x" removed).
pub fn wizz_public_key(answer: &str) -> (r: Result<[u8; 32]>)
    ensures
        match public_key_xonly(without_hex_prefixes(answer@)) {
            Ok(k) => r matches Ok(key) && key@ == k,
            Err(e) => r matches Err(Error::WalletError(m)) && m@ == "Failed to parse public key: "@ + e,
        },
{
    let hex = trim_hex_prefixes(answer);
    match xonly_of_public_key(hex.as_str()) {
        Ok(k) => Ok(k),
        Err(e) => Err(Error::WalletError(concat("Failed to parse public key: ", e.as_str()))),
    }
}

/// The x-only key of the public key that the UniSat wallet gives as hex text.
pub fn unisat_public_key(answer: &str) -> (r: Result<[u8; 32]>)
    ensures
        match public_key_xonly(answer@) {
            Ok(k) => r matches Ok(key) && key@ == k,
            Err(e) => r matches Err(Error::WalletError(m)) && m@ == "Invalid public key: "@ + e,
        },
{
    match xonly_of_public_key(answer) {
        Ok(k) => Ok(k),
        Err(e) => Err(Error::WalletError(concat("Invalid public key: ", e.as_str()))),
    }
}

} // verus!
