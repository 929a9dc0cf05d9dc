//! Transaction size accounting. Sizes are whole bytes; virtual sizes are
//! counted in quarter virtual bytes (weight units plus rounding), so that
//! every figure is an exact integer.

use vstd::prelude::*;
use crate::chain::{is_p2pkh, is_p2tr, is_p2wpkh, p2pkh_template, p2tr_template, p2wpkh_template};

verus! {

/// The kinds of output script whose spending size is known.
#[derive(Debug, Clone, Copy, PartialEq, Eq, Structural)]
pub enum ScriptType {
    /// Pay to public key hash.
    P2PKH,
    /// Native SegWit (version 0, key hash).
    P2WPKH,
    /// Taproot.
    P2TR,
}

/// Non-witness and witness bytes of a transaction or of one of its parts.
#[derive(Debug, Clone, Copy, PartialEq, Eq, Structural)]
pub struct TransactionSize {
    /// Non-witness bytes.
    pub base_size: u128,
    /// Witness bytes.
    pub witness_size: u128,
}

/// Virtual size in quarters: `base * 4 + witness + 3`, so that the virtual
/// size is this divided by four.
pub open spec fn vsize_quarters(base: nat, witness: nat) -> nat {
    base * 4 + witness + 3
}

impl TransactionSize {
    /// A size of `base_size` non-witness and `witness_size` witness bytes.
    pub fn new(base_size: u128, witness_size: u128) -> (r: Self)
        ensures
            r.base_size == base_size,
            r.witness_size == witness_size,
    {
        TransactionSize { base_size, witness_size }
    }

    /// The virtual size in quarter bytes, `base * 4 + witness + 3`; the
    /// virtual size is a quarter of it.
    pub fn total_vsize_quarters(&self) -> (r: u128)
        requires
            vsize_quarters(self.base_size as nat, self.witness_size as nat) <= u128::MAX,
        ensures
            r == vsize_quarters(self.base_size as nat, self.witness_size as nat),
    {
        self.base_size * 4 + self.witness_size + 3
    }
}

/// Non-witness and witness bytes that spending an output of each kind adds.
pub open spec fn input_size(t: ScriptType) -> (nat, nat) {
    match t {
        ScriptType::P2PKH => (148, 0),
        ScriptType::P2WPKH => (68, 107),
        ScriptType::P2TR => (108, 108),
    }
}

/// Bytes that an output of each kind adds.
pub open spec fn output_size(t: ScriptType) -> nat {
    match t {
        ScriptType::P2PKH => 34,
        ScriptType::P2WPKH => 31,
        ScriptType::P2TR => 34,
    }
}

/// Non-witness bytes of `ts` as inputs.
pub open spec fn inputs_base(ts: Seq<ScriptType>) -> nat
    decreases ts.len(),
{
    if ts.len() == 0 { 0 } else { inputs_base(ts.drop_last()) + input_size(ts.last()).0 }
}

/// Witness bytes of `ts` as inputs.
pub open spec fn inputs_witness(ts: Seq<ScriptType>) -> nat
    decreases ts.len(),
{
    if ts.len() == 0 { 0 } else { inputs_witness(ts.drop_last()) + input_size(ts.last()).1 }
}

/// Bytes of `ts` as outputs.
pub open spec fn outputs_base(ts: Seq<ScriptType>) -> nat
    decreases ts.len(),
{
    if ts.len() == 0 { 0 } else { outputs_base(ts.drop_last()) + output_size(ts.last()) }
}

/// The size of a transaction spending `ins` to `outs`: 10 bytes of framing,
/// each input and output, and 40 bytes for an OP_RETURN output where there is one.
pub open spec fn tx_size(ins: Seq<ScriptType>, outs: Seq<ScriptType>, op_return: bool) -> (nat, nat) {
    (10 + inputs_base(ins) + outputs_base(outs) + if op_return { 40nat } else { 0nat }, inputs_witness(ins))
}

/// The size that spending an output of kind `script_type` adds.
pub fn get_input_size(script_type: &ScriptType) -> (r: TransactionSize)
    ensures
        (r.base_size as nat, r.witness_size as nat) == input_size(*script_type),
{
    match script_type {
        ScriptType::P2PKH => TransactionSize::new(148, 0),
        ScriptType::P2WPKH => TransactionSize::new(68, 107),
        ScriptType::P2TR => TransactionSize::new(108, 108),
    }
}

/// The size of an output of kind `script_type`.
pub fn get_output_size(script_type: &ScriptType) -> (r: u128)
    ensures
        r == output_size(*script_type),
{
    match script_type {
        ScriptType::P2PKH => 34,
        ScriptType::P2WPKH => 31,
        ScriptType::P2TR => 34,
    }
}

/// Each step of the sums below adds at most this many bytes.
proof fn lemma_sums_bounded(ins: Seq<ScriptType>, outs: Seq<ScriptType>)
    ensures
        inputs_base(ins) <= 148 * ins.len(),
        inputs_witness(ins) <= 108 * ins.len(),
        outputs_base(outs) <= 34 * outs.len(),
    decreases ins.len() + outs.len(),
{
    if ins.len() > 0 {
        lemma_sums_bounded(ins.drop_last(), outs);
    }
    if outs.len() > 0 {
        lemma_sums_bounded(ins, outs.drop_last());
    }
}

/// The size of a transaction spending outputs of kinds `input_types` to
/// outputs of kinds `output_types`, with an OP_RETURN output where `has_op_return`.
pub fn calculate_tx_size(input_types: &[ScriptType], output_types: &[ScriptType], has_op_return: bool) -> (r: TransactionSize)
    ensures
        (r.base_size as nat, r.witness_size as nat) == tx_size(input_types@, output_types@, has_op_return),
{
    let mut base_size: u128 = 10;
    let mut witness_size: u128 = 0;
    let n = input_types.len();
    let m = output_types.len();
    let mut i: usize = 0;
    while i < n
        invariant
            n == input_types@.len(),
            i <= input_types@.len(),
            base_size == 10 + inputs_base(input_types@.subrange(0, i as int)),
            witness_size == inputs_witness(input_types@.subrange(0, i as int)),
            input_types@.len() <= usize::MAX,
        decreases input_types@.len() - i,
    {
        proof {
            lemma_sums_bounded(input_types@.subrange(0, i as int), Seq::empty());
            assert(input_types@.subrange(0, i + 1).drop_last() =~= input_types@.subrange(0, i as int));
        }
        let size = get_input_size(&input_types[i]);
        base_size = base_size + size.base_size;
        witness_size = witness_size + size.witness_size;
        i = i + 1;
    }
    proof {
        assert(input_types@.subrange(0, i as int) =~= input_types@);
        lemma_sums_bounded(input_types@, output_types@);
    }
    let ghost base_in = base_size;
    let mut j: usize = 0;
    while j < m
        invariant
            m == output_types@.len(),
            n == input_types@.len(),
            j <= output_types@.len(),
            base_size == base_in + outputs_base(output_types@.subrange(0, j as int)),
            base_in == 10 + inputs_base(input_types@),
            inputs_base(input_types@) <= 148 * input_types@.len(),
            input_types@.len() <= usize::MAX,
            output_types@.len() <= usize::MAX,
        decreases output_types@.len() - j,
    {
        proof {
            lemma_sums_bounded(Seq::empty(), output_types@.subrange(0, j as int));
            assert(output_types@.subrange(0, j + 1).drop_last() =~= output_types@.subrange(0, j as int));
        }
        base_size = base_size + get_output_size(&output_types[j]);
        j = j + 1;
    }
    proof {
        assert(output_types@.subrange(0, j as int) =~= output_types@);
    }
    if has_op_return {
        base_size = base_size + 40;
    }
    TransactionSize::new(base_size, witness_size)
}

/// With no input and no output, a transaction has its 10 bytes of framing,
/// 40 more for an OP_RETURN output, and no witness bytes.
pub proof fn law_empty_transaction_size(op_return: bool)
    ensures
        tx_size(Seq::empty(), Seq::empty(), op_return) == (if op_return { (50nat, 0nat) } else { (10nat, 0nat) }),
{
}

/// Each input adds the bytes of its own kind, whatever the inputs before it:
/// 148 non-witness bytes for P2PKH, 68 and 107 witness bytes for P2WPKH, 108
/// and 108 for P2TR; the outputs and the OP_RETURN are untouched.
pub proof fn law_input_adds_its_own_size(ins: Seq<ScriptType>, t: ScriptType, outs: Seq<ScriptType>, op_return: bool)
    ensures
        tx_size(ins.push(t), outs, op_return).0 == tx_size(ins, outs, op_return).0 + match t {
            ScriptType::P2PKH => 148nat,
            ScriptType::P2WPKH => 68nat,
            ScriptType::P2TR => 108nat,
        },
        tx_size(ins.push(t), outs, op_return).1 == tx_size(ins, outs, op_return).1 + match t {
            ScriptType::P2PKH => 0nat,
            ScriptType::P2WPKH => 107nat,
            ScriptType::P2TR => 108nat,
        },
{
    assert(ins.push(t).drop_last() =~= ins);
}

/// Each output adds the bytes of its own kind, whatever the outputs before
/// it: 34 for P2PKH, 31 for P2WPKH, 34 for P2TR, all non-witness.
pub proof fn law_output_adds_its_own_size(ins: Seq<ScriptType>, outs: Seq<ScriptType>, t: ScriptType, op_return: bool)
    ensures
        tx_size(ins, outs.push(t), op_return).0 == tx_size(ins, outs, op_return).0 + match t {
            ScriptType::P2PKH => 34nat,
            ScriptType::P2WPKH => 31nat,
            ScriptType::P2TR => 34nat,
        },
        tx_size(ins, outs.push(t), op_return).1 == tx_size(ins, outs, op_return).1,
{
    assert(outs.push(t).drop_last() =~= outs);
}

/// An OP_RETURN output adds 40 non-witness bytes and no witness bytes.
pub proof fn law_op_return_adds_forty(ins: Seq<ScriptType>, outs: Seq<ScriptType>)
    ensures
        tx_size(ins, outs, true).0 == tx_size(ins, outs, false).0 + 40,
        tx_size(ins, outs, true).1 == tx_size(ins, outs, false).1,
{
}

/// Bytes of the compact-size length prefix of an `n`-byte item.
pub open spec fn compact_size_len(n: nat) -> nat {
    if n <= 252 { 1 } else if n <= 0xffff { 3 } else if n <= 0xffff_ffff { 5 } else { 9 }
}

/// Bytes of the compact-size length prefix of an `n`-byte item.
pub fn compact_size_bytes(n: usize) -> (r: u128)
    ensures
        r == compact_size_len(n as nat),
{
    if n <= 252 {
        1
    } else if n <= 0xffff {
        3
    } else if n as u128 <= 0xffff_ffff {
        5
    } else {
        9
    }
}

/// Fee accounting constants, in quarter virtual bytes: 10.5 bytes of framing,
/// 57.5 per funding input, 43 per output, 66 for the reveal input.
pub const FEE_BASE_QUARTERS: u128 = 42;
pub const FEE_INPUT_QUARTERS: u128 = 230;
pub const FEE_OUTPUT_QUARTERS: u128 = 172;
pub const REVEAL_INPUT_QUARTERS: u128 = 264;

/// Virtual size of a reveal transaction, in quarter bytes: framing, the reveal
/// input with its script and length prefix counted at witness rate, then the
/// extra inputs and the outputs.
pub open spec fn reveal_quarters(input_num: nat, output_num: nat, script_len: nat) -> nat {
    42 + 264 + compact_size_len(script_len) + script_len + 230 * input_num + 172 * output_num
}

/// Virtual size of a commit transaction, in quarter bytes.
pub open spec fn commit_quarters(input_num: nat, output_num: nat) -> nat {
    42 + 230 * input_num + 172 * output_num
}

/// Virtual size of a reveal transaction with `input_num` extra inputs,
/// `output_num` outputs and a hash-lock script of `hash_lock_script_len`
/// bytes, in quarter bytes.
pub fn reveal_size_quarters(input_num: usize, output_num: usize, hash_lock_script_len: usize) -> (r: u128)
    ensures
        r == reveal_quarters(input_num as nat, output_num as nat, hash_lock_script_len as nat),
{
    FEE_BASE_QUARTERS + REVEAL_INPUT_QUARTERS + compact_size_bytes(hash_lock_script_len)
        + hash_lock_script_len as u128 + FEE_INPUT_QUARTERS * (input_num as u128)
        + FEE_OUTPUT_QUARTERS * (output_num as u128)
}

/// Virtual size of a commit transaction with `input_num` inputs and
/// `output_num` outputs, in quarter bytes.
pub fn commit_size_quarters(input_num: usize, output_num: usize) -> (r: u128)
    ensures
        r == commit_quarters(input_num as nat, output_num as nat),
{
    FEE_BASE_QUARTERS + FEE_INPUT_QUARTERS * (input_num as u128) + FEE_OUTPUT_QUARTERS * (output_num as u128)
}

/// The kind of an output script, where it is one of the three known kinds.
pub open spec fn script_type_of(s: Seq<u8>) -> Option<ScriptType> {
    if p2pkh_template(s) {
        Some(ScriptType::P2PKH)
    } else if p2wpkh_template(s) {
        Some(ScriptType::P2WPKH)
    } else if p2tr_template(s) {
        Some(ScriptType::P2TR)
    } else {
        None
    }
}

impl ScriptType {
    /// The kind of the output script `script`, where it is a known one.
    pub fn from_script(script: &[u8]) -> (r: Option<Self>)
        ensures
            r == script_type_of(script@),
    {
        if is_p2pkh(script) {
            Some(ScriptType::P2PKH)
        } else if is_p2wpkh(script) {
            Some(ScriptType::P2WPKH)
        } else if is_p2tr(script) {
            Some(ScriptType::P2TR)
        } else {
            None
        }
    }
}

} // verus!
