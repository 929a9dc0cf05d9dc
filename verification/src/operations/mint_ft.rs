//! The decisions of minting an ARC-20 token: which outputs fund the commit
//! transaction, what the commit and reveal transactions pay, and the payload
//! arguments. Wallet round trips, fee rates and signing stay with the caller.

use vstd::prelude::*;
use crate::errors::{Error, Result};
use crate::text::to_owned_string;
use crate::types::arc20::Arc20Config;
use crate::types::realm::DUST_LIMIT;
use crate::utils::tx_size::{script_type_of, ScriptType};
use crate::wallet::{same_utxo, Utxo};
use crate::chain::tx_encoding;
use crate::types::transaction::{OutPoint, Transaction, TxOut};

verus! {

/// How the search for funding outputs ends.
pub enum SelectionEnd {
    /// The first `k` outputs suffice, paying fee `fee`.
    Found(nat, u64),
    /// The running total overflowed.
    Overflow,
    /// An output's script is of no known kind.
    Unsupported,
    /// All outputs together do not suffice.
    NotEnough,
}

/// The search from output `j` on, with `total` gathered so far: add output
/// `j`, check its kind, and stop where the total less the fee for the first
/// `j + 1` outputs (`fees[j]`) reaches `target`.
pub open spec fn selection_from(u: Seq<Utxo>, fees: Seq<u64>, target: u64, j: int, total: nat) -> SelectionEnd
    decreases u.len() - j,
{
    if j < 0 || j >= u.len() {
        SelectionEnd::NotEnough
    } else {
        let t: nat = total + (u[j].txout.value as nat);
        if t > u64::MAX {
            SelectionEnd::Overflow
        } else if script_type_of(u[j].txout.script_pubkey@) is None {
            SelectionEnd::Unsupported
        } else if t >= fees[j] && t - fees[j] >= target {
            SelectionEnd::Found((j + 1) as nat, fees[j])
        } else {
            selection_from(u, fees, target, j + 1, t)
        }
    }
}

/// Sum of the values of the first `k` outputs.
pub open spec fn value_sum(u: Seq<Utxo>, k: int) -> nat
    decreases k,
{
    if k <= 0 { 0 } else { value_sum(u, k - 1) + (u[k - 1].txout.value as nat) }
}

/// The search started at output `j` with the first `j` outputs gathered ends
/// with a prefix whose total is as stated.
proof fn lemma_selection_found(u: Seq<Utxo>, fees: Seq<u64>, target: u64, j: int)
    requires
        0 <= j <= u.len(),
        selection_from(u, fees, target, j, value_sum(u, j)) matches SelectionEnd::Found(k, fee),
    ensures
        selection_from(u, fees, target, j, value_sum(u, j)) matches SelectionEnd::Found(k, fee)
            && j < k <= u.len() && value_sum(u, k as int) <= u64::MAX && value_sum(u, k as int) >= fee
            && value_sum(u, k as int) - fee >= target,
    decreases u.len() - j,
{
    if j < u.len() {
        let t = value_sum(u, j) + u[j].txout.value;
        assert(value_sum(u, j + 1) == t);
        if !(t >= fees[j] && t - fees[j] >= target) {
            lemma_selection_found(u, fees, target, j + 1);
        }
    }
}

/// Picks funding outputs in order until their total, less the fee for that
/// many inputs, covers `target_amount`. `prefix_fees[k]` is the fee of a
/// commit transaction with the first `k + 1` outputs as inputs. Returns the
/// outputs taken and the fee.
pub fn select_utxos(utxos: &[Utxo], target_amount: u64, prefix_fees: &[u64]) -> (r: Result<(Vec<Utxo>, u64)>)
    requires
        prefix_fees@.len() >= utxos@.len(),
    ensures
        match selection_from(utxos@, prefix_fees@, target_amount, 0, 0) {
            SelectionEnd::Found(k, fee) => r matches Ok((sel, f)) && f == fee && sel@.len() == k
                && forall|i: int| 0 <= i < k ==> #[trigger] same_utxo(sel@[i], utxos@[i]),
            SelectionEnd::Overflow => r matches Err(Error::TransactionError(m)) && m@ == "Amount overflow"@,
            SelectionEnd::Unsupported => r matches Err(Error::TransactionError(m)) && m@ == "Unsupported script type"@,
            SelectionEnd::NotEnough => r matches Err(Error::InvalidAmount(m)) && m@ == "Not enough funds to cover amount and fees"@,
        },
{
    let n = utxos.len();
    let mut selected: Vec<Utxo> = Vec::new();
    let mut total: u64 = 0;
    let mut j: usize = 0;
    while j < n
        invariant
            n == utxos@.len(),
            prefix_fees@.len() >= n,
            j <= n,
            total == value_sum(utxos@, j as int),
            selection_from(utxos@, prefix_fees@, target_amount, j as int, total as nat)
                == selection_from(utxos@, prefix_fees@, target_amount, 0, 0),
            selected@.len() == j,
            forall|i: int| 0 <= i < j ==> #[trigger] same_utxo(selected@[i], utxos@[i]),
        decreases n - j,
    {
        let u = &utxos[j];
        selected.push(u.clone());
        total = match total.checked_add(u.txout.value) {
            Some(t) => t,
            None => return Err(Error::TransactionError(to_owned_string("Amount overflow"))),
        };
        if ScriptType::from_script(u.txout.script_pubkey.as_slice()).is_none() {
            return Err(Error::TransactionError(to_owned_string("Unsupported script type")));
        }
        let fee = prefix_fees[j];
        if total >= fee && total - fee >= target_amount {
            return Ok((selected, fee));
        }
        j = j + 1;
    }
    Err(Error::InvalidAmount(to_owned_string("Not enough funds to cover amount and fees")))
}

/// What the commit and reveal transactions of a mint pay.
#[derive(Debug)]
pub struct MintFtPlan {
    /// The outputs that fund the commit transaction, in order.
    pub selected: Vec<Utxo>,
    /// Value of the commit output that the reveal spends: reveal fee plus minted amount.
    pub commit_output_value: u64,
    /// Fee of the commit transaction.
    pub commit_fee: u64,
    /// Change back to the wallet, where it is above the dust limit.
    pub change: Option<u64>,
    /// Value of the reveal output: the minted amount.
    pub reveal_output_value: u64,
}

/// The change of a commit transaction: inputs less the fee and the
/// committed value; fails where they cannot cover the fee, or the rest.
pub fn commit_change(total_input: u64, commit_fee: u64, commit_output_value: u64) -> (r: Result<u64>)
    ensures
        total_input < commit_fee ==> (r matches Err(Error::InvalidAmount(m)) && m@ == "Not enough funds to cover fees"@),
        total_input >= commit_fee && total_input - commit_fee < commit_output_value
            ==> (r matches Err(Error::InvalidAmount(m)) && m@ == "Not enough funds after fees"@),
        total_input >= commit_fee + commit_output_value ==> r == Ok::<u64, Error>((total_input - commit_fee - commit_output_value) as u64),
{
    match total_input.checked_sub(commit_fee) {
        Some(remaining) => match remaining.checked_sub(commit_output_value) {
            Some(change) => Ok(change),
            None => Err(Error::InvalidAmount(to_owned_string("Not enough funds after fees"))),
        },
        None => Err(Error::InvalidAmount(to_owned_string("Not enough funds to cover fees"))),
    }
}

/// Change worth returning: above the dust limit.
pub open spec fn kept_change(change: nat) -> Option<u64> {
    if change > DUST_LIMIT { Some(change as u64) } else { None }
}

/// Plans the commit and reveal transactions that mint `mint_amount` of a
/// token: the commit output carries the reveal fee plus the minted amount;
/// funding outputs are picked until they cover it and the commit fee (with
/// `prefix_fees` as in `select_utxos`); change above the dust limit goes back
/// to the wallet; the reveal pays the minted amount.
pub fn plan_mint_ft(mint_amount: u64, utxos: &[Utxo], reveal_fee: u64, commit_fee: u64, prefix_fees: &[u64]) -> (r: Result<MintFtPlan>)
    requires
        reveal_fee + mint_amount + commit_fee <= u64::MAX,
        prefix_fees@.len() >= utxos@.len(),
    ensures
        ({
            let cov = reveal_fee + mint_amount;
            let target = (cov + commit_fee) as u64;
            match selection_from(utxos@, prefix_fees@, target, 0, 0) {
                SelectionEnd::Found(k, fee) => r matches Ok(p) && p.selected@.len() == k
                    && (forall|i: int| 0 <= i < k ==> #[trigger] same_utxo(p.selected@[i], utxos@[i]))
                    && p.commit_output_value == cov
                    && p.commit_fee == commit_fee
                    && value_sum(utxos@, k as int) >= cov + commit_fee
                    && p.change == kept_change((value_sum(utxos@, k as int) - commit_fee - cov) as nat)
                    && p.reveal_output_value == mint_amount,
                SelectionEnd::Overflow => r matches Err(Error::TransactionError(m)) && m@ == "Amount overflow"@,
                SelectionEnd::Unsupported => r matches Err(Error::TransactionError(m)) && m@ == "Unsupported script type"@,
                SelectionEnd::NotEnough => r matches Err(Error::InvalidAmount(m)) && m@ == "Not enough funds to cover amount and fees"@,
            }
        }),
{
    let commit_output_value = reveal_fee + mint_amount;
    let target = commit_output_value + commit_fee;
    let (selected, _fee) = match select_utxos(utxos, target, prefix_fees) {
        Ok(x) => x,
        Err(e) => return Err(e),
    };
    proof {
        lemma_selection_found(utxos@, prefix_fees@, target, 0);
    }
    let ghost k = selected@.len();
    let mut total_input: u64 = 0;
    let mut i: usize = 0;
    while i < selected.len()
        invariant
            i <= selected@.len(),
            selected@.len() == k,
            k <= utxos@.len(),
            value_sum(utxos@, k as int) <= u64::MAX,
            forall|j: int| 0 <= j < k ==> #[trigger] same_utxo(selected@[j], utxos@[j]),
            total_input == value_sum(utxos@, i as int),
        decreases selected@.len() - i,
    {
        proof {
            lemma_value_sum_monotone(utxos@, i as int + 1, k as int);
            assert(same_utxo(selected@[i as int], utxos@[i as int]));
        }
        total_input = total_input + selected[i].txout.value;
        i = i + 1;
    }
    let change_amount = match commit_change(total_input, commit_fee, commit_output_value) {
        Ok(c) => c,
        Err(e) => return Err(e),
    };
    let change = if change_amount > DUST_LIMIT { Some(change_amount) } else { None };
    Ok(MintFtPlan { selected, commit_output_value, commit_fee, change, reveal_output_value: mint_amount })
}

/// Sums of longer prefixes are no smaller.
proof fn lemma_value_sum_monotone(u: Seq<Utxo>, a: int, b: int)
    requires
        0 <= a <= b,
    ensures
        value_sum(u, a) <= value_sum(u, b),
    decreases b - a,
{
    if a < b {
        lemma_value_sum_monotone(u, a, b - 1);
    }
}

/// Sequence number that signals replace-by-fee and no lock time.
pub const ENABLE_RBF_NO_LOCKTIME: u32 = 0xffff_fffd;

/// The inputs of a commit transaction: each selected output, with `sequence`.
pub open spec fn commit_inputs(selected: Seq<Utxo>, sequence: u32) -> Seq<(OutPoint, u32)> {
    Seq::new(selected.len(), |i: int| (selected[i].outpoint, sequence))
}

/// The outputs of a commit transaction: the commit output, then the change
/// where there is any.
pub open spec fn commit_outputs(value: u64, script: Seq<u8>, change: Option<u64>, change_script: Seq<u8>) -> Seq<(u64, Seq<u8>)> {
    match change {
        Some(c) => seq![(value, script), (c, change_script)],
        None => seq![(value, script)],
    }
}

/// A copy of the bytes.
pub(crate) fn copy_bytes(b: &[u8]) -> (r: Vec<u8>)
    ensures
        r@ == b@,
{
    let mut r: Vec<u8> = Vec::new();
    r.extend_from_slice(b);
    assert(r@ =~= b@);
    r
}

/// The commit transaction (lock time zero): it spends the selected outputs
/// with `sequence`, pays `commit_output_value` to `commit_script` and the
/// change, where there is any, to `change_script`.
pub fn commit_transaction(
    version: i32,
    selected: &[Utxo],
    sequence: u32,
    commit_output_value: u64,
    commit_script: &[u8],
    change: Option<u64>,
    change_script: &[u8],
) -> (r: Transaction)
    ensures
        r@ == tx_encoding(version, 0, commit_inputs(selected@, sequence),
            commit_outputs(commit_output_value, commit_script@, change, change_script@)),
{
    let n = selected.len();
    let mut inputs: Vec<(OutPoint, u32)> = Vec::new();
    let mut i: usize = 0;
    while i < n
        invariant
            n == selected@.len(),
            i <= n,
            inputs@ =~= commit_inputs(selected@, sequence).subrange(0, i as int),
        decreases n - i,
    {
        inputs.push((selected[i].outpoint, sequence));
        i = i + 1;
    }
    let mut outputs: Vec<TxOut> = Vec::new();
    outputs.push(TxOut { value: commit_output_value, script_pubkey: copy_bytes(commit_script) });
    if let Some(c) = change {
        outputs.push(TxOut { value: c, script_pubkey: copy_bytes(change_script) });
    }
    proof {
        assert(inputs@ =~= commit_inputs(selected@, sequence));
        assert(crate::chain::outputs_view(outputs@) =~= commit_outputs(commit_output_value, commit_script@, change, change_script@));
    }
    Transaction::new(version, 0, inputs.as_slice(), outputs.as_slice())
}

/// The reveal transaction of a token mint (version 2, lock time zero): it
/// spends output 0 of the commit transaction `commit_txid` with
/// replace-by-fee signalled and pays the minted amount to `script`.
pub fn ft_reveal_transaction(commit_txid: [u8; 32], mint_amount: u64, script: &[u8]) -> (r: Transaction)
    ensures
        r@ == tx_encoding(2, 0, seq![(OutPoint { txid: commit_txid, vout: 0 }, ENABLE_RBF_NO_LOCKTIME)],
            seq![(mint_amount, script@)]),
{
    let mut inputs: Vec<(OutPoint, u32)> = Vec::new();
    inputs.push((OutPoint { txid: commit_txid, vout: 0 }, ENABLE_RBF_NO_LOCKTIME));
    let mut outputs: Vec<TxOut> = Vec::new();
    outputs.push(TxOut { value: mint_amount, script_pubkey: copy_bytes(script) });
    proof {
        assert(inputs@ =~= seq![(OutPoint { txid: commit_txid, vout: 0 }, ENABLE_RBF_NO_LOCKTIME)]);
        assert(crate::chain::outputs_view(outputs@) =~= seq![(mint_amount, script@)]);
    }
    Transaction::new(2, 0, inputs.as_slice(), outputs.as_slice())
}

/// The arguments of a mint payload: the commit bitwork (empty where there is
/// none), the ticker, and the nonce and time that make each mint unique.
#[derive(Debug, Clone)]
pub struct Payload {
    pub bitworkc: String,
    pub mint_ticker: String,
    pub nonce: u64,
    pub time: u64,
}

/// The payload, under the key `args`.
#[derive(Debug, Clone)]
pub struct PayloadWrapper {
    pub args: Payload,
}

/// The payload of a mint of `config`'s token, with the given time and nonce.
pub fn mint_payload(config: &Arc20Config, time: u64, nonce: u64) -> (r: PayloadWrapper)
    ensures
        r.args.bitworkc@ == match config.mint_bitworkc { Some(b) => b@, None => Seq::<char>::empty() },
        r.args.mint_ticker@ == config.tick@,
        r.args.nonce == nonce,
        r.args.time == time,
{
    let bitworkc = match &config.mint_bitworkc {
        Some(b) => b.clone(),
        None => String::new(),
    };
    PayloadWrapper { args: Payload { bitworkc, mint_ticker: config.tick.clone(), nonce, time } }
}

} // verus!
