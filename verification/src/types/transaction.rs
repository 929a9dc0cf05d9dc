//! Bitcoin transactions, held as their consensus encoding, and the record of
//! an Atomicals operation's transactions.

use vstd::prelude::*;
use crate::chain::{decodes_as_transaction, encode_transaction, input_count, output_count, outputs_view, tx_decodes, tx_encoding, tx_input_count, tx_output_count, tx_txid, txid_raw, txid_string, txid_text};

verus! {

/// A Bitcoin transaction, held as its consensus encoding; the bytes always
/// decode as a transaction.
#[derive(Debug)]
pub struct Transaction {
    bytes: Vec<u8>,
}

impl View for Transaction {
    type V = Seq<u8>;

    closed spec fn view(&self) -> Seq<u8> {
        self.bytes@
    }
}

impl Transaction {
    #[verifier::type_invariant]
    spec fn decodes(self) -> bool {
        tx_decodes(self.bytes@)
    }

    /// The transaction of `version` and `lock_time` spending `inputs`
    /// (outpoint and sequence number each, no scripts or witnesses yet) and
    /// paying `outputs`.
    pub fn new(version: i32, lock_time: u32, inputs: &[(OutPoint, u32)], outputs: &[TxOut]) -> (r: Self)
        ensures
            r@ == tx_encoding(version, lock_time, inputs@, outputs_view(outputs@)),
            tx_input_count(r@) == inputs@.len(),
            tx_output_count(r@) == outputs@.len(),
    {
        Transaction { bytes: encode_transaction(version, lock_time, inputs, outputs) }
    }

    /// The transaction that `bytes` encode, if they encode one.
    pub fn from_bytes(bytes: Vec<u8>) -> (r: Option<Self>)
        ensures
            r is Some <==> tx_decodes(bytes@),
            r matches Some(t) ==> t@ == bytes@,
    {
        if decodes_as_transaction(bytes.as_slice()) {
            Some(Transaction { bytes })
        } else {
            None
        }
    }

    /// The consensus encoding.
    pub fn bytes(&self) -> (r: &Vec<u8>)
        ensures
            r@ == self@,
            tx_decodes(r@),
    {
        proof {
            use_type_invariant(self);
        }
        &self.bytes
    }

    /// The consensus encoding, as an owned vector.
    pub fn to_bytes(&self) -> (r: Vec<u8>)
        ensures
            r@ == self@,
            tx_decodes(r@),
    {
        proof {
            use_type_invariant(self);
        }
        self.bytes.clone()
    }

    /// Number of inputs.
    pub fn input_count(&self) -> (r: usize)
        ensures
            r == tx_input_count(self@),
    {
        proof {
            use_type_invariant(self);
        }
        input_count(self.bytes.as_slice())
    }

    /// Number of outputs.
    pub fn output_count(&self) -> (r: usize)
        ensures
            r == tx_output_count(self@),
    {
        proof {
            use_type_invariant(self);
        }
        output_count(self.bytes.as_slice())
    }

    /// The transaction id, in internal byte order.
    pub fn txid_bytes(&self) -> (r: [u8; 32])
        ensures
            r@ == tx_txid(self@),
    {
        proof {
            use_type_invariant(self);
        }
        txid_raw(self.bytes.as_slice())
    }

    /// The transaction id, as `Txid` displays it.
    pub fn txid(&self) -> (r: String)
        ensures
            r@ == txid_text(self@),
    {
        proof {
            use_type_invariant(self);
        }
        txid_string(self.bytes.as_slice())
    }
}

impl Clone for Transaction {
    fn clone(&self) -> (r: Self)
        ensures
            r@ == self@,
    {
        Transaction { bytes: self.to_bytes() }
    }
}

/// A transaction output: a value and the script that locks it.
#[derive(Debug)]
pub struct TxOut {
    pub value: u64,
    pub script_pubkey: Vec<u8>,
}

impl Clone for TxOut {
    fn clone(&self) -> (r: Self)
        ensures
            r.value == self.value,
            r.script_pubkey@ == self.script_pubkey@,
    {
        TxOut { value: self.value, script_pubkey: self.script_pubkey.clone() }
    }
}

/// A reference to an output: the id of its transaction (in internal byte
/// order) and its index.
#[derive(Debug, Clone, Copy)]
pub struct OutPoint {
    pub txid: [u8; 32],
    pub vout: u32,
}

/// The transactions of an Atomicals operation.
#[derive(Debug, Clone)]
pub struct AtomicalsTx {
    pub raw_tx: Transaction,
    pub inputs: Vec<TxOut>,
    pub atomicals_id: Option<String>,
    pub commit_tx: Option<Transaction>,
    pub reveal_tx: Option<Transaction>,
    pub commit_txid: Option<String>,
    pub reveal_txid: Option<String>,
}

impl AtomicalsTx {
    /// A record of the single transaction `raw_tx` spending `inputs`.
    pub fn new(raw_tx: Transaction, inputs: Vec<TxOut>) -> (r: Self)
        ensures
            r.raw_tx == raw_tx,
            r.inputs == inputs,
            r.atomicals_id is None,
            r.commit_tx is None,
            r.reveal_tx is None,
            r.commit_txid is None,
            r.reveal_txid is None,
    {
        AtomicalsTx {
            raw_tx,
            inputs,
            atomicals_id: None,
            commit_tx: None,
            reveal_tx: None,
            commit_txid: None,
            reveal_txid: None,
        }
    }

    /// Sets the Atomical id.
    pub fn with_atomicals_id(self, atomicals_id: String) -> (r: Self)
        ensures
            r == (AtomicalsTx { atomicals_id: Some(atomicals_id), ..self }),
    {
        AtomicalsTx { atomicals_id: Some(atomicals_id), ..self }
    }

    /// The id of the main transaction.
    pub fn txid(&self) -> (r: String)
        ensures
            r@ == txid_text(self.raw_tx@),
    {
        self.raw_tx.txid()
    }

    /// A record of a commit and reveal pair; the reveal is the main transaction.
    pub fn new_with_commit_reveal(
        commit_tx: Transaction,
        reveal_tx: Transaction,
        commit_txid: Option<String>,
        reveal_txid: Option<String>,
    ) -> (r: Self)
        ensures
            r.raw_tx@ == reveal_tx@,
            r.inputs@.len() == 0,
            r.atomicals_id is None,
            r.commit_tx == Some(commit_tx),
            r.reveal_tx == Some(reveal_tx),
            r.commit_txid == commit_txid,
            r.reveal_txid == reveal_txid,
    {
        AtomicalsTx {
            raw_tx: reveal_tx.clone(),
            inputs: Vec::new(),
            atomicals_id: None,
            commit_tx: Some(commit_tx),
            reveal_tx: Some(reveal_tx),
            commit_txid,
            reveal_txid,
        }
    }
}

} // verus!
