//! The mining worker: tries the nonces of a range as the first input's
//! sequence number until the transaction id shows the bitwork prefix.

use vstd::prelude::*;
use crate::chain::{input_count, tx_input_count, tx_with_first_sequence, txid_string, txid_text, with_first_sequence};
use crate::text::{str_prefix, str_starts_with};
use crate::types::transaction::Transaction;

verus! {

/// A range of nonces to try on a transaction.
#[derive(Debug, Clone)]
pub struct MiningTask {
    pub tx: Transaction,
    pub start_nonce: u32,
    pub end_nonce: u32,
    pub bitwork_prefix: String,
}

/// What a worker found: the nonce and the transaction carrying it.
#[derive(Debug, Clone)]
pub struct MiningResult {
    pub success: bool,
    pub nonce: Option<u32>,
    pub tx: Option<Transaction>,
}

/// The transaction `b` with nonce `n` as its first input's sequence number
/// (unchanged where it has no input).
pub open spec fn with_nonce(b: Seq<u8>, n: u32) -> Seq<u8> {
    if tx_input_count(b) > 0 { tx_with_first_sequence(b, n) } else { b }
}

/// The id of `b` carrying nonce `n` starts with `prefix`.
pub open spec fn nonce_hits(b: Seq<u8>, n: u32, prefix: Seq<char>) -> bool {
    str_prefix(txid_text(with_nonce(b, n)), prefix)
}

/// Tries the nonces from `start_nonce` up to (not including) `end_nonce` in
/// order; reports the first whose transaction id starts with the prefix,
/// together with that transaction.
pub fn mine_range(task: MiningTask) -> (r: MiningResult)
    ensures
        r.success <==> exists|n: u32| task.start_nonce <= n < task.end_nonce && nonce_hits(task.tx@, n, task.bitwork_prefix@),
        r.success ==> (r.nonce matches Some(n) && task.start_nonce <= n < task.end_nonce
            && nonce_hits(task.tx@, n, task.bitwork_prefix@)
            && (forall|m: u32| task.start_nonce <= m < n ==> !nonce_hits(task.tx@, m, task.bitwork_prefix@))
            && (r.tx matches Some(t) && t@ == with_nonce(task.tx@, n)
                && str_prefix(txid_text(t@), task.bitwork_prefix@))),
        !r.success ==> r.nonce is None && r.tx is None,
{
    let unmined = task.tx.bytes();
    let has_input = input_count(unmined.as_slice()) > 0;
    let mut nonce = task.start_nonce;
    while nonce < task.end_nonce
        invariant
            task.start_nonce <= nonce <= task.end_nonce || task.start_nonce >= task.end_nonce,
            nonce >= task.start_nonce,
            unmined@ == task.tx@,
            crate::chain::tx_decodes(unmined@),
            has_input == (tx_input_count(unmined@) > 0),
            forall|m: u32| task.start_nonce <= m < nonce ==> !nonce_hits(task.tx@, m, task.bitwork_prefix@),
        decreases task.end_nonce - nonce,
    {
        let candidate = if has_input {
            with_first_sequence(unmined.as_slice(), nonce)
        } else {
            unmined.clone()
        };
        let txid = txid_string(candidate.as_slice());
        if str_starts_with(txid.as_str(), task.bitwork_prefix.as_str()) {
            assert(candidate@ == with_nonce(task.tx@, nonce));
            assert(nonce_hits(task.tx@, nonce, task.bitwork_prefix@));
            let tx = Transaction::from_bytes(candidate);
            return MiningResult { success: true, nonce: Some(nonce), tx };
        }
        nonce = nonce + 1;
    }
    MiningResult { success: false, nonce: None, tx: None }
}

} // verus!
