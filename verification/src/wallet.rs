//! What wallets hand the library: spendable outputs and where Atomicals sit.

use vstd::prelude::*;
use crate::types::transaction::{OutPoint, TxOut};
use crate::chain::{address_reading, parse_txid, read_address, txid_bytes, txid_error_text, AddressFailure, BitcoinNetwork};
use crate::errors::{Error, Result};
use crate::text::{concat, contains_char, decimal_string, decimal_text, has_char, to_owned_string};

verus! {

/// A spendable output of the wallet.
#[derive(Debug)]
pub struct Utxo {
    pub outpoint: OutPoint,
    pub txout: TxOut,
    pub height: Option<u32>,
}

/// `a` and `b` describe the same output.
pub open spec fn same_utxo(a: Utxo, b: Utxo) -> bool {
    a.outpoint == b.outpoint && a.txout.value == b.txout.value
        && a.txout.script_pubkey@ == b.txout.script_pubkey@ && a.height == b.height
}

impl Clone for Utxo {
    fn clone(&self) -> (r: Self)
        ensures
            same_utxo(r, *self),
    {
        Utxo { outpoint: self.outpoint, txout: self.txout.clone(), height: self.height }
    }
}

/// Where an Atomical sits.
#[derive(Debug, Clone)]
pub struct AtomicalLocation {
    pub txid: String,
    pub vout: u32,
    pub value: u64,
    pub script_pubkey: String,
    pub address: String,
}

/// What an indexer reports of an Atomical.
#[derive(Debug, Clone)]
pub struct AtomicalInfo {
    pub atomical_id: String,
    pub atomical_type: String,
    pub atomical_number: u64,
    pub location: Option<AtomicalLocation>,
    pub mint_info: Option<serde_json::Value>,
    pub state: Option<serde_json::Value>,
}

/// One entry of an indexer's listing of the outputs at a script: where it
/// was mined, its outpoint, its value, and how many Atomicals entries the
/// listing gives for it (zero where it gives none).
#[derive(Debug)]
pub struct ListedUtxo {
    pub height: u32,
    pub txid: String,
    pub value: u64,
    pub vout: u32,
    pub index: u32,
    pub atomical_entries: usize,
}

/// `a` and `b` list the same entry.
pub open spec fn same_listed(a: ListedUtxo, b: ListedUtxo) -> bool {
    a.height == b.height && a.txid@ == b.txid@ && a.value == b.value && a.vout == b.vout
        && a.index == b.index && a.atomical_entries == b.atomical_entries
}

impl Clone for ListedUtxo {
    fn clone(&self) -> (r: Self)
        ensures
            same_listed(r, *self),
    {
        ListedUtxo {
            height: self.height,
            txid: self.txid.clone(),
            value: self.value,
            vout: self.vout,
            index: self.index,
            atomical_entries: self.atomical_entries,
        }
    }
}

/// The entry is free to spend: it carries no Atomicals.
pub open spec fn carries_no_atomicals(e: ListedUtxo) -> bool {
    e.atomical_entries == 0
}

/// The entries that carry no Atomicals, in their order.
pub open spec fn free_entries(s: Seq<ListedUtxo>) -> Seq<ListedUtxo>
    decreases s.len(),
{
    if s.len() == 0 {
        Seq::empty()
    } else if carries_no_atomicals(s.last()) {
        free_entries(s.drop_last()).push(s.last())
    } else {
        free_entries(s.drop_last())
    }
}

/// Only outputs that carry no Atomicals are offered for spending: every
/// entry that `free_entries` keeps carries none and comes from the listing,
/// and it keeps no more entries than the listing has.
pub proof fn law_free_entries_carry_no_atomicals(s: Seq<ListedUtxo>)
    ensures
        free_entries(s).len() <= s.len(),
        forall|i: int| 0 <= i < free_entries(s).len() ==> #[trigger] carries_no_atomicals(free_entries(s)[i])
            && s.contains(free_entries(s)[i]),
    decreases s.len(),
{
    if s.len() > 0 {
        law_free_entries_carry_no_atomicals(s.drop_last());
        let f = free_entries(s);
        let g = free_entries(s.drop_last());
        assert forall|i: int| 0 <= i < f.len() implies #[trigger] carries_no_atomicals(f[i]) && s.contains(f[i]) by {
            if i < g.len() {
                assert(f[i] == g[i]);
                assert(0 <= i < free_entries(s.drop_last()).len());
                assert(carries_no_atomicals(free_entries(s.drop_last())[i]));
                assert(s.drop_last().contains(g[i]));
                let j = choose|j: int| 0 <= j < s.drop_last().len() && s.drop_last()[j] == g[i];
                assert(s[j] == g[i]);
            } else {
                assert(f[i] == s.last());
                assert(s[s.len() - 1] == s.last());
            }
        }
    }
}

/// Index of the first entry from `j` on whose transaction id does not parse.
pub open spec fn first_bad_txid(s: Seq<ListedUtxo>, j: int) -> Option<int>
    decreases s.len() - j,
{
    if j < 0 || j >= s.len() {
        None
    } else if txid_bytes(s[j].txid@) is None {
        Some(j)
    } else {
        first_bad_txid(s, j + 1)
    }
}

/// `u` is the wallet output that listing entry `e` describes, paying to `script`.
pub open spec fn listed_as(u: Utxo, e: ListedUtxo, script: Seq<u8>) -> bool {
    &&& txid_bytes(e.txid@) matches Some(t) && u.outpoint.txid@ == t
    &&& u.outpoint.vout == e.vout
    &&& u.txout.value == e.value
    &&& u.txout.script_pubkey@ == script
    &&& u.height == Some(e.height)
}

/// The entries that carry no Atomicals.
fn free_listed(entries: &[ListedUtxo]) -> (r: Vec<ListedUtxo>)
    ensures
        r@.len() == free_entries(entries@).len(),
        forall|i: int| 0 <= i < r@.len() ==> #[trigger] same_listed(r@[i], free_entries(entries@)[i]),
{
    let n = entries.len();
    let mut r: Vec<ListedUtxo> = Vec::new();
    let mut i: usize = 0;
    while i < n
        invariant
            n == entries@.len(),
            i <= n,
            r@.len() == free_entries(entries@.subrange(0, i as int)).len(),
            forall|k: int| 0 <= k < r@.len() ==> #[trigger] same_listed(r@[k], free_entries(entries@.subrange(0, i as int))[k]),
        decreases n - i,
    {
        proof {
            assert(entries@.subrange(0, i + 1).drop_last() =~= entries@.subrange(0, i as int));
            assert(entries@.subrange(0, i + 1).last() == entries@[i as int]);
        }
        let e = &entries[i];
        if e.atomical_entries == 0 {
            r.push(e.clone());
        }
        i = i + 1;
    }
    proof {
        assert(entries@.subrange(0, n as int) =~= entries@);
    }
    r
}

/// The wallet's spendable outputs from an indexer's listing of the outputs at
/// `script_pubkey`: the entries that carry no Atomicals, in order, each with
/// its transaction id parsed. Fails where the listing reports no success, or
/// at the first such entry whose transaction id does not parse.
pub fn available_utxos(success: bool, entries: &[ListedUtxo], script_pubkey: &[u8]) -> (r: Result<Vec<Utxo>>)
    ensures
        !success ==> (r matches Err(Error::NetworkError(m)) && m@ == "UTXO API request failed"@),
        success ==> match first_bad_txid(free_entries(entries@), 0) {
            Some(k) => r matches Err(Error::TransactionError(m))
                && m@ == "Invalid txid: "@ + txid_error_text(free_entries(entries@)[k].txid@),
            None => r matches Ok(v) && v@.len() == free_entries(entries@).len()
                && forall|i: int| 0 <= i < v@.len() ==> #[trigger] listed_as(v@[i], free_entries(entries@)[i], script_pubkey@),
        },
{
    if !success {
        return Err(Error::NetworkError(to_owned_string("UTXO API request failed")));
    }
    let free = free_listed(entries);
    let ghost fs = free_entries(entries@);
    let n = free.len();
    let mut out: Vec<Utxo> = Vec::new();
    let mut i: usize = 0;
    while i < n
        invariant
            success,
            n == free@.len(),
            n == fs.len(),
            fs == free_entries(entries@),
            forall|k: int| 0 <= k < n ==> #[trigger] same_listed(free@[k], fs[k]),
            i <= n,
            first_bad_txid(fs, i as int) == first_bad_txid(fs, 0),
            out@.len() == i,
            forall|k: int| 0 <= k < i ==> #[trigger] listed_as(out@[k], fs[k], script_pubkey@),
        decreases n - i,
    {
        let e = &free[i];
        assert(same_listed(free@[i as int], fs[i as int]));
        match parse_txid(e.txid.as_str()) {
            Ok(t) => {
                let mut script: Vec<u8> = Vec::new();
                script.extend_from_slice(script_pubkey);
                assert(script@ =~= script_pubkey@);
                let u = Utxo {
                    outpoint: OutPoint { txid: t, vout: e.vout },
                    txout: TxOut { value: e.value, script_pubkey: script },
                    height: Some(e.height),
                };
                out.push(u);
                assert(listed_as(out@[i as int], fs[i as int], script_pubkey@));
            },
            Err(msg) => {
                return Err(Error::TransactionError(concat("Invalid txid: ", msg.as_str())));
            },
        }
        i = i + 1;
    }
    Ok(out)
}

/// The output script of the wallet's address on `network`, as a mint reads
/// it: an address that does not parse is an address error, one of another
/// network a network error, each with the reading's error text.
pub fn wallet_script(address: &str, network: BitcoinNetwork) -> (r: Result<Vec<u8>>)
    ensures
        match address_reading(address@, network) {
            Ok(b) => r matches Ok(v) && v@ == b,
            Err((parse, m)) => if parse {
                r matches Err(Error::AddressError(e)) && e@ == m
            } else {
                r matches Err(Error::NetworkError(e)) && e@ == m
            },
        },
{
    match read_address(address, network) {
        Ok(v) => Ok(v),
        Err(AddressFailure::Parse(m)) => Err(Error::AddressError(m)),
        Err(AddressFailure::Network(m)) => Err(Error::NetworkError(m)),
    }
}

/// The output script of the wallet's address on `network`, as the UTXO
/// listing reads it: both failures are address errors, reading
/// "Invalid address: " or "Invalid network: " and the error text.
pub fn listing_script(address: &str, network: BitcoinNetwork) -> (r: Result<Vec<u8>>)
    ensures
        match address_reading(address@, network) {
            Ok(b) => r matches Ok(v) && v@ == b,
            Err((parse, m)) => r matches Err(Error::AddressError(e))
                && e@ == (if parse { "Invalid address: "@ } else { "Invalid network: "@ }) + m,
        },
{
    match read_address(address, network) {
        Ok(v) => Ok(v),
        Err(AddressFailure::Parse(m)) => Err(Error::AddressError(concat("Invalid address: ", m.as_str()))),
        Err(AddressFailure::Network(m)) => Err(Error::AddressError(concat("Invalid network: ", m.as_str()))),
    }
}

/// The location `<txid>:<index>` of an Atomical: `location` where it has a
/// colon, else made from the transaction id and output index.
pub fn normalized_location(location: &str, txid: &str, index: u64) -> (r: String)
    ensures
        has_char(location@, ':') ==> r@ == location@,
        !has_char(location@, ':') ==> r@ == txid@ + ":"@ + decimal_text(index as nat),
{
    if contains_char(location, ':') {
        return to_owned_string(location);
    }
    let head = concat(txid, ":");
    let digits = decimal_string(index);
    concat(head.as_str(), digits.as_str())
}

} // verus!
