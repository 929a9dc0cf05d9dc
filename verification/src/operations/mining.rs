//! Bitwork mining: searching nonces whose digest shows a required prefix, and
//! sharing the nonce space among workers.

use vstd::prelude::*;
use vstd::utf8::{encode_utf8, is_ascii_chars_encode_utf8};
use crate::chain::{first_sequence, input_count, tx_decodes, tx_first_sequence, tx_input_count, tx_with_first_sequence, txid_string, txid_text, with_first_sequence};
use crate::errors::{Error, Result};
use crate::text::to_owned_string;
use crate::worker::nonce_hits;
use crate::codec::{hex_decode, hex_decoded, hex_encode, hex_text, is_hex_byte, lemma_hex_text_roundtrip};
use crate::digest::{sha256_digest, sha2_sha256};
use crate::text::{byte_count, byte_len, char_at, char_len, concat, lemma_encode_utf8_concat, str_prefix, str_starts_with};
use crate::types::mint::{bitwork_matches, prefix_bytes, BitworkInfo};
use crate::types::transaction::Transaction;
use crate::types::wasm::{hex_bytes, hex_transaction, WasmTransaction};

verus! {

/// How mining is spread: the number of workers and the batch size.
#[derive(Debug, Clone, Copy)]
pub struct MiningOptions {
    pub num_workers: u32,
    pub batch_size: u32,
}

impl MiningOptions {
    /// Four workers, batches of 100000 nonces.
    pub fn new() -> (r: Self)
        ensures
            r.num_workers == 4,
            r.batch_size == 100000,
    {
        MiningOptions { num_workers: 4, batch_size: 100000 }
    }
}

/// The outcome of mining: whether a nonce was found, which, and the mined
/// transaction as hex.
#[derive(Debug, Clone)]
pub struct MiningResult {
    pub success: bool,
    pub nonce: Option<u32>,
    pub tx_hex: Option<String>,
}

impl MiningResult {
    /// An outcome, with the transaction (if any) written as hex.
    pub fn with_transaction(success: bool, nonce: Option<u32>, tx: Option<&Transaction>) -> (r: Self)
        ensures
            r.success == success,
            r.nonce == nonce,
            match tx {
                Some(t) => r.tx_hex matches Some(h) && h@ == hex_text(t@) && hex_transaction(h@) == Some(t@),
                None => r.tx_hex is None,
            },
    {
        let tx_hex = match tx {
            Some(t) => {
                let bytes = t.bytes();
                proof {
                    crate::codec::lemma_hex_text_roundtrip(bytes@);
                }
                Some(hex_encode(bytes.as_slice()))
            },
            None => None,
        };
        MiningResult { success, nonce, tx_hex }
    }

    /// The mined transaction, where the hex text is present and spells one.
    pub fn get_transaction(&self) -> (r: Option<Transaction>)
        ensures
            match self.tx_hex {
                Some(h) => match hex_transaction(h@) {
                    Some(b) => r matches Some(t) && t@ == b,
                    None => r is None,
                },
                None => r is None,
            },
    {
        match &self.tx_hex {
            Some(h) => match hex_decode(h.as_str().as_bytes()) {
                Some(bytes) => Transaction::from_bytes(bytes),
                None => None,
            },
            None => None,
        }
    }
}

/// The four bytes of `n`, most significant first.
pub open spec fn be32(n: u32) -> Seq<u8> {
    seq![(n / 0x100_0000) as u8, ((n / 0x1_0000) % 0x100) as u8, ((n / 0x100) % 0x100) as u8, (n % 0x100) as u8]
}

/// `format!("{:08x}", n)`: eight lowercase hex digits.
pub open spec fn nonce_text(n: u32) -> Seq<char> {
    hex_text(be32(n))
}

/// The value of a lowercase hex digit.
pub open spec fn lower_hex_value(c: char) -> Option<u32> {
    if '0' <= c && c <= '9' {
        Some(((c as u32) - ('0' as u32)) as u32)
    } else if 'a' <= c && c <= 'f' {
        Some(((c as u32) - ('a' as u32) + 10) as u32)
    } else {
        None
    }
}

/// Whether `txid` shows `bitwork`: it starts with it and, where a minimum `x`
/// is given and `txid` has a character at the position of the prefix's byte
/// length, that character is a lowercase hex digit of value at least `x`.
pub open spec fn shows_bitwork(txid: Seq<char>, bitwork: Seq<char>, x: Option<u32>) -> bool {
    &&& str_prefix(txid, bitwork)
    &&& match x {
        None => true,
        Some(x) => {
            let k = byte_count(bitwork) as int;
            k < txid.len() ==> match lower_hex_value(txid[k]) {
                Some(v) => v >= x,
                None => false,
            }
        },
    }
}

/// The hex digest that `check_nonce` tests: SHA-256 of the bytes that the
/// transaction hex followed by the nonce's eight hex digits spells.
pub open spec fn nonce_digest(tx_hex: Seq<char>, n: u32) -> Seq<char> {
    hex_text(sha2_sha256(hex_bytes(tx_hex + nonce_text(n)).unwrap()))
}

/// Nonce `n` meets `bitwork` for the transaction `tx_hex`.
pub open spec fn nonce_meets(tx_hex: Seq<char>, n: u32, bitwork: Seq<char>) -> bool {
    shows_bitwork(nonce_digest(tx_hex, n), bitwork, None)
}

/// The four bytes of `n`, most significant first.
fn be32_bytes(n: u32) -> (r: Vec<u8>)
    ensures
        r@ == be32(n),
{
    let mut v: Vec<u8> = Vec::new();
    v.push((n / 0x100_0000) as u8);
    v.push(((n / 0x1_0000) % 0x100) as u8);
    v.push(((n / 0x100) % 0x100) as u8);
    v.push((n % 0x100) as u8);
    assert(v@ =~= be32(n));
    v
}

/// Valid hex text stays valid with a nonce's digits appended.
proof fn lemma_nonce_hex_valid(h: Seq<char>, n: u32)
    requires
        hex_bytes(h) is Some,
    ensures
        hex_bytes(h + nonce_text(n)) is Some,
{
    let t = nonce_text(n);
    lemma_hex_text_roundtrip(be32(n));
    lemma_encode_utf8_concat(h, t);
    let a = encode_utf8(h);
    let b = encode_utf8(t);
    let c = a + b;
    assert(!exists|i: int| 0 <= i < a.len() && !#[trigger] is_hex_byte(a[i]));
    assert forall|i: int| 0 <= i < c.len() implies #[trigger] is_hex_byte(c[i]) by {
        if i < a.len() {
            assert(c[i] == a[i]);
        } else {
            assert(c[i] == b[i - a.len()]);
        }
    }
    assert(!exists|i: int| 0 <= i < c.len() && !#[trigger] is_hex_byte(c[i]));
}

/// Whether `txid` shows `bitwork` (see `shows_bitwork`).
fn has_valid_bitwork(txid: &str, bitwork: &str, bitworkx: Option<u32>) -> (r: bool)
    ensures
        r == shows_bitwork(txid@, bitwork@, bitworkx),
{
    if str_starts_with(txid, bitwork) {
        if let Some(x) = bitworkx {
            let k = byte_len(bitwork);
            if k < char_len(txid) {
                let c = char_at(txid, k);
                let value: u32 = if c >= '0' && c <= '9' {
                    (c as u32) - ('0' as u32)
                } else if c >= 'a' && c <= 'f' {
                    (c as u32) - ('a' as u32) + 10
                } else {
                    return false;
                };
                return value >= x;
            }
        }
        return true;
    }
    false
}

/// `Some(nonce)` where the nonce meets the bitwork for the transaction.
fn check_nonce(tx: &WasmTransaction, nonce: u32, bitwork: &str) -> (r: Option<u32>)
    requires
        hex_bytes(tx@ + nonce_text(nonce)) is Some,
    ensures
        r == (if nonce_meets(tx@, nonce, bitwork@) { Some(nonce) } else { None::<u32> }),
{
    let nonce_hex = hex_encode(be32_bytes(nonce).as_slice());
    let tx_hex = tx.to_hex();
    let data_with_nonce = concat(tx_hex.as_str(), nonce_hex.as_str());
    let bytes = match hex_decode(data_with_nonce.as_str().as_bytes()) {
        Some(b) => b,
        None => {
            assert(false);
            return None;
        },
    };
    let digest = sha256_digest(bytes.as_slice());
    let txid = hex_encode(digest.as_slice());
    if has_valid_bitwork(txid.as_str(), bitwork, None) {
        Some(nonce)
    } else {
        None
    }
}

/// Tries the nonces from `start_nonce` to `end_nonce` (both included) in
/// order and returns the first that meets the bitwork, if any.
pub fn mine_nonce_range(tx_wrapper: &WasmTransaction, start_nonce: u32, end_nonce: u32, bitwork: &str) -> (r: Option<u32>)
    requires
        start_nonce <= end_nonce ==> hex_bytes(tx_wrapper@) is Some,
    ensures
        r matches Some(n) ==> start_nonce <= n <= end_nonce && nonce_meets(tx_wrapper@, n, bitwork@)
            && forall|m: u32| start_nonce <= m < n ==> !nonce_meets(tx_wrapper@, m, bitwork@),
        r is None ==> forall|m: u32| start_nonce <= m <= end_nonce ==> !nonce_meets(tx_wrapper@, m, bitwork@),
{
    if start_nonce > end_nonce {
        return None;
    }
    let mut nonce = start_nonce;
    loop
        invariant
            start_nonce <= nonce <= end_nonce,
            hex_bytes(tx_wrapper@) is Some,
            forall|m: u32| start_nonce <= m < nonce ==> !nonce_meets(tx_wrapper@, m, bitwork@),
        decreases end_nonce - nonce,
    {
        proof {
            lemma_nonce_hex_valid(tx_wrapper@, nonce);
        }
        if let Some(valid) = check_nonce(tx_wrapper, nonce, bitwork) {
            return Some(valid);
        }
        if nonce == end_nonce {
            return None;
        }
        nonce = nonce + 1;
    }
}

/// Whether the id of `tx` starts with the bitwork's prefix.
pub fn verify_bitwork(tx: &Transaction, bitwork: &BitworkInfo) -> (r: bool)
    ensures
        r == str_prefix(txid_text(tx@), bitwork.prefix@),
{
    let tx_hash = tx.txid();
    str_starts_with(tx_hash.as_str(), bitwork.prefix.as_str())
}

/// Without an extension, a bitwork matches a transaction id exactly when
/// `verify_bitwork` accepts the transaction: both compare the id's bytes
/// with the prefix's.
pub proof fn law_matches_agrees_with_verify(b: BitworkInfo, txid: Seq<char>)
    requires
        b.ext is None,
    ensures
        bitwork_matches(prefix_bytes(b), None, encode_utf8(txid)) == str_prefix(txid, b.prefix@),
{
}

/// The nonce space, all of `u32`.
pub const MAX_SEQUENCE: u32 = 0xffff_ffff;

/// The range of nonces that worker `i` of `n` searches: equal shares of
/// `MAX_SEQUENCE / n` nonces, the last worker taking what remains.
pub open spec fn worker_range(n: u32, i: int) -> (u32, u32) {
    let share = MAX_SEQUENCE / n;
    let start = i * share;
    if i == n - 1 {
        (start as u32, MAX_SEQUENCE)
    } else {
        (start as u32, (start + share - 1) as u32)
    }
}

/// The nonce range of each of `num_workers` workers, in order.
pub fn worker_ranges(num_workers: u32) -> (r: Vec<(u32, u32)>)
    requires
        num_workers > 0,
    ensures
        r@.len() == num_workers,
        forall|i: int| 0 <= i < num_workers ==> #[trigger] r@[i] == worker_range(num_workers, i),
{
    let share = MAX_SEQUENCE / num_workers;
    let mut r: Vec<(u32, u32)> = Vec::new();
    let mut i: u32 = 0;
    while i < num_workers
        invariant
            share == MAX_SEQUENCE / num_workers,
            num_workers > 0,
            i <= num_workers,
            r@.len() == i,
            forall|j: int| 0 <= j < i ==> #[trigger] r@[j] == worker_range(num_workers, j),
        decreases num_workers - i,
    {
        proof {
            lemma_share_bound(num_workers, i);
        }
        let start = i * share;
        let end = if i == num_workers - 1 { MAX_SEQUENCE } else { start + share - 1 };
        r.push((start, end));
        i = i + 1;
    }
    r
}

/// Worker `i` starts inside the nonce space and has at least one nonce.
proof fn lemma_share_bound(n: u32, i: u32)
    requires
        n > 0,
        i < n,
    ensures
        MAX_SEQUENCE / n >= 1,
        i * (MAX_SEQUENCE / n) + MAX_SEQUENCE / n <= MAX_SEQUENCE,
{
    let s = MAX_SEQUENCE / n;
    assert(s >= 1) by (nonlinear_arith)
        requires n > 0, n <= 0xffff_ffff, s == 0xffff_ffffu32 / n;
    assert(i * s + s <= MAX_SEQUENCE) by (nonlinear_arith)
        requires i < n, s == 0xffff_ffffu32 / n, n > 0;
}

/// Nonce `m` falls in the range of worker `i` of `n`.
pub open spec fn in_worker_range(n: u32, i: int, m: u32) -> bool {
    worker_range(n, i).0 <= m && m <= worker_range(n, i).1
}

/// The worker whose range holds nonce `m`.
pub open spec fn worker_of(n: u32, m: u32) -> int {
    let q = m / (MAX_SEQUENCE / n);
    if q < n - 1 { q as int } else { n - 1 }
}

/// The start and end of worker `i`'s range in terms of the share.
proof fn lemma_worker_range_values(n: u32, i: int)
    requires
        n > 0,
        0 <= i < n,
    ensures
        worker_range(n, i).0 == i * (MAX_SEQUENCE / n),
        i < n - 1 ==> worker_range(n, i).1 == i * (MAX_SEQUENCE / n) + MAX_SEQUENCE / n - 1,
        i == n - 1 ==> worker_range(n, i).1 == MAX_SEQUENCE,
        worker_range(n, i).0 <= worker_range(n, i).1,
{
    lemma_share_bound(n, i as u32);
}

/// The workers' nonce ranges split the nonce space: the first starts at 0,
/// the last ends at `MAX_SEQUENCE`, each holds at least one nonce, each
/// starts right after the one before it ends, and every nonce falls in the
/// range of exactly one worker.
pub proof fn law_worker_ranges_partition(n: u32)
    requires
        n > 0,
    ensures
        worker_range(n, 0).0 == 0,
        worker_range(n, n - 1).1 == MAX_SEQUENCE,
        forall|i: int| 0 <= i < n ==> #[trigger] worker_range(n, i).0 <= worker_range(n, i).1,
        forall|i: int| 0 <= i < n - 1 ==> #[trigger] worker_range(n, i + 1).0 == worker_range(n, i).1 + 1,
        forall|m: u32| 0 <= #[trigger] worker_of(n, m) < n && in_worker_range(n, worker_of(n, m), m),
        forall|m: u32, i: int, j: int| 0 <= i < n && 0 <= j < n && #[trigger] in_worker_range(n, i, m)
            && #[trigger] in_worker_range(n, j, m) ==> i == j,
{
    let share = MAX_SEQUENCE / n;
    lemma_worker_range_values(n, 0);
    lemma_worker_range_values(n, n - 1);
    assert forall|i: int| 0 <= i < n implies #[trigger] worker_range(n, i).0 <= worker_range(n, i).1 by {
        lemma_worker_range_values(n, i);
    }
    assert forall|i: int| 0 <= i < n - 1 implies #[trigger] worker_range(n, i + 1).0 == worker_range(n, i).1 + 1 by {
        lemma_worker_range_values(n, i);
        lemma_worker_range_values(n, i + 1);
        assert((i + 1) * share == i * share + share) by (nonlinear_arith);
    }
    assert forall|m: u32| 0 <= #[trigger] worker_of(n, m) < n && in_worker_range(n, worker_of(n, m), m) by {
        assert(share >= 1) by (nonlinear_arith)
            requires n > 0, n <= 0xffff_ffff, share == 0xffff_ffffu32 / n;
        let q = m / share;
        let i: int = worker_of(n, m);
        lemma_worker_range_values(n, i);
        assert(q * share <= m) by (nonlinear_arith)
            requires share >= 1, q == m / share;
        assert(i * share <= q * share) by (nonlinear_arith)
            requires i <= q, share >= 1, i >= 0;
        if i < n - 1 {
            assert(m < q * share + share) by (nonlinear_arith)
                requires share >= 1, q == m / share;
        }
        assert(in_worker_range(n, i, m));
    }
    assert forall|m: u32, i: int, j: int| 0 <= i < n && 0 <= j < n && #[trigger] in_worker_range(n, i, m)
        && #[trigger] in_worker_range(n, j, m) implies i == j by {
        lemma_worker_range_values(n, i);
        lemma_worker_range_values(n, j);
        if i < j {
            assert((i + 1) * share <= j * share) by (nonlinear_arith)
                requires i + 1 <= j, share >= 0;
            assert((i + 1) * share == i * share + share) by (nonlinear_arith);
        } else if j < i {
            assert((j + 1) * share <= i * share) by (nonlinear_arith)
                requires j + 1 <= i, share >= 0;
            assert((j + 1) * share == j * share + share) by (nonlinear_arith);
        }
    }
}

/// Checks a nonce that a worker reports: the transaction that `tx` spells,
/// with the nonce as its first input's sequence number, has an id that starts
/// with `prefix`. False where `tx` spells no transaction.
pub fn accept_worker_nonce(tx: &WasmTransaction, nonce: u32, prefix: &str) -> (r: bool)
    ensures
        r == (hex_transaction(tx@) matches Some(b) && nonce_hits(b, nonce, prefix@)),
{
    match tx.to_transaction() {
        Some(t) => {
            let bytes = t.bytes();
            let candidate = if input_count(bytes.as_slice()) > 0 {
                with_first_sequence(bytes.as_slice(), nonce)
            } else {
                bytes.clone()
            };
            let id = txid_string(candidate.as_slice());
            str_starts_with(id.as_str(), prefix)
        },
        None => false,
    }
}

/// Which transaction of a mint was mined.
#[derive(Debug, Clone, Copy, PartialEq, Eq, Structural)]
pub enum MintStage {
    Commit,
    Reveal,
}

/// The message of a failed mining of `stage`.
pub open spec fn mining_failure_message(stage: MintStage) -> Seq<char> {
    match stage {
        MintStage::Commit => "Failed to mine commit transaction"@,
        MintStage::Reveal => "Failed to mine reveal transaction"@,
    }
}

/// The step after mining the transaction of `stage`: a failed search ends
/// the mint; a found one replaces `current` with the mined transaction where
/// the result carries one, and keeps `current` where it does not.
pub fn after_mining(stage: MintStage, result: &MiningResult, current: Transaction) -> (r: Result<Transaction>)
    ensures
        !result.success ==> (r matches Err(Error::MiningError(m)) && m@ == mining_failure_message(stage)),
        result.success ==> match result.tx_hex {
            Some(h) => match hex_transaction(h@) {
                Some(b) => r matches Ok(t) && t@ == b,
                None => r matches Ok(t) && t@ == current@,
            },
            None => r matches Ok(t) && t@ == current@,
        },
{
    if !result.success {
        let m = match stage {
            MintStage::Commit => "Failed to mine commit transaction",
            MintStage::Reveal => "Failed to mine reveal transaction",
        };
        return Err(Error::MiningError(to_owned_string(m)));
    }
    match result.get_transaction() {
        Some(t) => Ok(t),
        None => Ok(current),
    }
}

/// The step after mining a subrealm's reveal: a failed search ends the mint;
/// a found one takes only the mined transaction's first sequence number (its
/// nonce) into `reveal`. `reveal` stays as it is where the result carries no
/// transaction, or where either transaction has no input.
pub fn reveal_after_mining(result: &MiningResult, reveal: Transaction) -> (r: Result<Transaction>)
    ensures
        !result.success ==> (r matches Err(Error::MiningError(m)) && m@ == mining_failure_message(MintStage::Reveal)),
        result.success ==> match result.tx_hex {
            Some(h) => match hex_transaction(h@) {
                Some(b) => if tx_input_count(b) > 0 && tx_input_count(reveal@) > 0 {
                    r matches Ok(t) && t@ == tx_with_first_sequence(reveal@, tx_first_sequence(b))
                } else {
                    r matches Ok(t) && t@ == reveal@
                },
                None => r matches Ok(t) && t@ == reveal@,
            },
            None => r matches Ok(t) && t@ == reveal@,
        },
{
    if !result.success {
        return Err(Error::MiningError(to_owned_string("Failed to mine reveal transaction")));
    }
    match result.get_transaction() {
        Some(mined) => {
            let mb = mined.bytes();
            let rb = reveal.bytes();
            if input_count(mb.as_slice()) > 0 && input_count(rb.as_slice()) > 0 {
                let sequence = first_sequence(mb.as_slice());
                let updated = with_first_sequence(rb.as_slice(), sequence);
                match Transaction::from_bytes(updated) {
                    Some(t) => Ok(t),
                    None => Ok(reveal),
                }
            } else {
                Ok(reveal)
            }
        },
        None => Ok(reveal),
    }
}

} // verus!
