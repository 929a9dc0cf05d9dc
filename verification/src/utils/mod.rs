//! Ticker rules and transaction size estimates.

pub mod tx_size;
pub mod script;
pub mod script_builder;

use vstd::prelude::*;
use crate::errors::{Error, Result};
use crate::chain::{tx_input_count, tx_output_count};
use crate::types::transaction::Transaction;
use crate::text::{byte_count, byte_len, char_at, char_len, is_alnum, is_alpha, lemma_byte_count_empty, to_owned_string};

verus! {

/// The ticker rules of `validate_ticker`: 1 to 21 bytes, a letter first,
/// letters and digits only.
pub open spec fn ticker_ok(t: Seq<char>) -> bool {
    &&& 1 <= byte_count(t) <= 21
    &&& t.len() > 0
    &&& is_alpha(t[0])
    &&& forall|i: int| 0 <= i < t.len() ==> #[trigger] is_alnum(t[i])
}

/// Every character of `s` is an ASCII letter or digit.
fn all_alnum(s: &str) -> (r: bool)
    ensures
        r == forall|i: int| 0 <= i < s@.len() ==> #[trigger] is_alnum(s@[i]),
{
    let n = char_len(s);
    let mut i: usize = 0;
    while i < n
        invariant
            n == s@.len(),
            i <= n,
            forall|j: int| 0 <= j < i ==> #[trigger] is_alnum(s@[j]),
        decreases n - i,
    {
        let c = char_at(s, i);
        if !((c >= 'a' && c <= 'z') || (c >= 'A' && c <= 'Z') || (c >= '0' && c <= '9')) {
            assert(!is_alnum(s@[i as int]));
            return false;
        }
        i = i + 1;
    }
    true
}

/// Every character of `s` is an ASCII letter, digit or underscore.
fn all_alnum_or_underscore(s: &str) -> (r: bool)
    ensures
        r == forall|i: int| 0 <= i < s@.len() ==> #[trigger] is_alnum(s@[i]) || s@[i] == '_',
{
    let n = char_len(s);
    let mut i: usize = 0;
    while i < n
        invariant
            n == s@.len(),
            i <= n,
            forall|j: int| 0 <= j < i ==> #[trigger] is_alnum(s@[j]) || s@[j] == '_',
        decreases n - i,
    {
        let c = char_at(s, i);
        if !((c >= 'a' && c <= 'z') || (c >= 'A' && c <= 'Z') || (c >= '0' && c <= '9') || c == '_') {
            assert(!(is_alnum(s@[i as int]) || s@[i as int] == '_'));
            return false;
        }
        i = i + 1;
    }
    true
}

/// Whether `ticker` is a valid ticker: 1 to 21 bytes, starting with an ASCII
/// letter and made of ASCII letters and digits only.
pub fn validate_ticker(ticker: &str) -> (r: bool)
    ensures
        r == ticker_ok(ticker@),
{
    let n = byte_len(ticker);
    if n < 1 || n > 21 {
        return false;
    }
    if char_len(ticker) == 0 {
        proof { lemma_byte_count_empty(ticker@); }
        return false;
    }
    let first = char_at(ticker, 0);
    if !((first >= 'a' && first <= 'z') || (first >= 'A' && first <= 'Z')) {
        return false;
    }
    all_alnum(ticker)
}

/// Message of the length error of `validate_ticker_new`.
pub open spec fn ticker_length_message() -> Seq<char> {
    "Ticker must be between 1 and 21 characters"@
}

/// Message of the character error of `validate_ticker_new`.
pub open spec fn ticker_chars_message() -> Seq<char> {
    "Ticker can only contain alphanumeric characters and underscores"@
}

/// Checks a ticker of 1 to 21 bytes made of ASCII letters, digits and
/// underscores, and says which rule it breaks.
pub fn validate_ticker_new(ticker: &str) -> (r: Result<()>)
    ensures
        (ticker@.len() == 0 || byte_count(ticker@) > 21) ==> (r matches Err(Error::InvalidTicker(m)) && m@ == ticker_length_message()),
        !(ticker@.len() == 0 || byte_count(ticker@) > 21)
            && !(forall|i: int| 0 <= i < ticker@.len() ==> #[trigger] is_alnum(ticker@[i]) || ticker@[i] == '_')
            ==> (r matches Err(Error::InvalidTicker(m)) && m@ == ticker_chars_message()),
        r is Ok <==> !(ticker@.len() == 0 || byte_count(ticker@) > 21)
            && (forall|i: int| 0 <= i < ticker@.len() ==> #[trigger] is_alnum(ticker@[i]) || ticker@[i] == '_'),
{
    if char_len(ticker) == 0 || byte_len(ticker) > 21 {
        return Err(Error::InvalidTicker(to_owned_string("Ticker must be between 1 and 21 characters")));
    }
    if !all_alnum_or_underscore(ticker) {
        return Err(Error::InvalidTicker(to_owned_string("Ticker can only contain alphanumeric characters and underscores")));
    }
    Ok(())
}

/// A ticker that `validate_ticker` accepts also passes `validate_ticker_new`.
pub proof fn law_valid_ticker_passes_checked_form(t: Seq<char>)
    requires
        ticker_ok(t),
    ensures
        !(t.len() == 0 || byte_count(t) > 21),
        forall|i: int| 0 <= i < t.len() ==> #[trigger] is_alnum(t[i]) || t[i] == '_',
{
}

/// The rough size of a transaction with `inputs` inputs and `outputs`
/// outputs: 10 bytes for version and lock time, 150 per input, 34 per output.
pub open spec fn estimated_size(inputs: nat, outputs: nat) -> nat {
    10 + 150 * inputs + 34 * outputs
}

/// Estimates the size of `tx` in bytes from its input and output counts.
pub fn estimate_tx_size(tx: &Transaction) -> (r: Result<usize>)
    requires
        estimated_size(tx_input_count(tx@), tx_output_count(tx@)) <= usize::MAX,
    ensures
        r == Ok::<usize, Error>(estimated_size(tx_input_count(tx@), tx_output_count(tx@)) as usize),
{
    let inputs = tx.input_count();
    let outputs = tx.output_count();
    Ok(10 + inputs * 150 + outputs * 34)
}

/// `estimate_tx_size` where the estimate fits in a `usize`, `None` where it
/// does not.
pub fn try_estimate_tx_size(tx: &Transaction) -> (r: Option<usize>)
    ensures
        estimated_size(tx_input_count(tx@), tx_output_count(tx@)) <= usize::MAX
            ==> r == Some(estimated_size(tx_input_count(tx@), tx_output_count(tx@)) as usize),
        estimated_size(tx_input_count(tx@), tx_output_count(tx@)) > usize::MAX ==> r is None,
{
    let inputs = tx.input_count();
    let outputs = tx.output_count();
    let a = match inputs.checked_mul(150) {
        Some(a) => a,
        None => return None,
    };
    let b = match outputs.checked_mul(34) {
        Some(b) => b,
        None => return None,
    };
    let ab = match a.checked_add(b) {
        Some(ab) => ab,
        None => return None,
    };
    if ab.checked_add(10).is_none() {
        return None;
    }
    match estimate_tx_size(tx) {
        Ok(n) => Some(n),
        Err(_) => None,
    }
}

} // verus!
