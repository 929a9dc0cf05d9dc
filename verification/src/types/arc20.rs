//! ARC-20 fungible tokens: their configuration and their holders.

use vstd::prelude::*;
use crate::errors::{Error, Result};
use crate::text::{all_hex, all_hex_digits, char_at, char_len, concat, is_lower_alnum, to_owned_string};
use crate::types::amount::Amount;
use crate::types::assoc::{as_map, find_key, keys_distinct, lemma_as_map_dom, lemma_as_map_get, lemma_as_map_update, lemma_push_distinct};

verus! {

/// What deploying or minting an ARC-20 token needs.
#[derive(Debug, Clone)]
pub struct Arc20Config {
    pub tick: String,
    pub mint_amount: Amount,
    pub mint_bitworkc: Option<String>,
    pub mint_bitworkr: Option<String>,
    /// Metadata entries; each key occurs once.
    pub meta: Vec<(String, serde_json::Value)>,
}

/// An ARC-20 token and who holds how much of it.
#[derive(Debug, Clone)]
pub struct Arc20Token {
    pub config: Arc20Config,
    pub minted_supply: Amount,
    pub mint_count: u32,
    /// Balance of each holder's address; each address occurs once.
    pub holders: Vec<(String, Amount)>,
    pub mint_bitwork_vec: Option<String>,
    pub mint_phase: u32,
}

/// ARC-20 ticker rule: 3 to 5 characters, lowercase letters and digits.
pub open spec fn arc20_ticker_ok(t: Seq<char>) -> bool {
    3 <= t.len() <= 5 && forall|i: int| 0 <= i < t.len() ==> #[trigger] is_lower_alnum(t[i])
}

/// A ticker passes exactly when it has 3 to 5 characters, each a letter
/// 'a' to 'z' or a digit '0' to '9'; so a ticker with an uppercase letter or
/// any other character is refused, and `Arc20Config::new` gives
/// `InvalidTicker` for it.
pub proof fn law_ticker_alphabet(t: Seq<char>)
    ensures
        arc20_ticker_ok(t) <==> (3 <= t.len() <= 5
            && forall|i: int| 0 <= i < t.len() ==> ('a' <= #[trigger] t[i] <= 'z' || '0' <= t[i] <= '9')),
        (exists|i: int| 0 <= i < t.len() && 'A' <= #[trigger] t[i] <= 'Z') ==> !arc20_ticker_ok(t),
{
    assert forall|i: int| 0 <= i < t.len() implies
        (is_lower_alnum(#[trigger] t[i]) <==> ('a' <= t[i] <= 'z' || '0' <= t[i] <= '9')) by {}
    if exists|i: int| 0 <= i < t.len() && 'A' <= #[trigger] t[i] <= 'Z' {
        let k = choose|i: int| 0 <= i < t.len() && 'A' <= #[trigger] t[i] <= 'Z';
        assert(!is_lower_alnum(t[k]));
    }
}

/// Bitwork rule: a non-empty string of hex digits.
pub open spec fn arc20_bitwork_ok(b: Seq<char>) -> bool {
    b.len() > 0 && all_hex(b)
}

/// Sum of the balances in `h`.
pub open spec fn balance_sum(h: Seq<(String, Amount)>) -> nat
    decreases h.len(),
{
    if h.len() == 0 {
        0
    } else {
        balance_sum(h.drop_last()) + (h.last().1.0 as nat)
    }
}

/// The balance of `address` in `h` (zero for an address that holds nothing).
pub open spec fn balance_of(h: Seq<(String, Amount)>, address: Seq<char>) -> u64 {
    if as_map(h).contains_key(address) {
        as_map(h)[address].0
    } else {
        0
    }
}

/// Replacing one balance changes the sum by the difference.
pub proof fn lemma_balance_sum_update(h: Seq<(String, Amount)>, i: int, k: String, a: Amount)
    requires
        0 <= i < h.len(),
    ensures
        balance_sum(h.update(i, (k, a))) + h[i].1.0 == balance_sum(h) + a.0,
    decreases h.len(),
{
    let t = h.update(i, (k, a));
    if i == h.len() - 1 {
        assert(t.drop_last() =~= h.drop_last());
    } else {
        lemma_balance_sum_update(h.drop_last(), i, k, a);
        assert(t.drop_last() =~= h.drop_last().update(i, (k, a)));
    }
}

impl Arc20Config {
    /// Whether `tick` has 3 to 5 characters, all lowercase letters or digits.
    fn is_valid_ticker(tick: &str) -> (r: bool)
        ensures
            r == arc20_ticker_ok(tick@),
    {
        let n = char_len(tick);
        if n < 3 || n > 5 {
            return false;
        }
        let mut i: usize = 0;
        while i < n
            invariant
                n == tick@.len(),
                i <= n,
                forall|j: int| 0 <= j < i ==> #[trigger] is_lower_alnum(tick@[j]),
            decreases n - i,
        {
            let c = char_at(tick, i);
            if !((c >= 'a' && c <= 'z') || (c >= '0' && c <= '9')) {
                assert(!is_lower_alnum(tick@[i as int]));
                return false;
            }
            i = i + 1;
        }
        true
    }

    /// Whether `bitwork` is a non-empty string of hex digits.
    fn is_valid_bitwork(bitwork: &str) -> (r: bool)
        ensures
            r == arc20_bitwork_ok(bitwork@),
    {
        if char_len(bitwork) == 0 {
            return false;
        }
        all_hex_digits(bitwork)
    }

    /// A configuration for ticker `tick` minting `mint_amount` each time; the
    /// ticker must pass the ARC-20 rule and the amount must not be zero.
    pub fn new(tick: String, mint_amount: Amount) -> (r: Result<Self>)
        ensures
            !arc20_ticker_ok(tick@) ==> (r matches Err(Error::InvalidTicker(m)) && m@ == "Invalid ticker format: "@ + tick@),
            arc20_ticker_ok(tick@) && mint_amount.0 == 0 ==> (r matches Err(Error::InvalidAmount(m)) && m@ == "Mint amount cannot be zero"@),
            r is Ok <==> arc20_ticker_ok(tick@) && mint_amount.0 != 0,
            r matches Ok(c) ==> c.tick == tick && c.mint_amount == mint_amount && c.mint_bitworkc is None
                && c.mint_bitworkr is None && c.meta@.len() == 0,
    {
        if !Self::is_valid_ticker(tick.as_str()) {
            return Err(Error::InvalidTicker(concat("Invalid ticker format: ", tick.as_str())));
        }
        if mint_amount.0 == 0 {
            return Err(Error::InvalidAmount(to_owned_string("Mint amount cannot be zero")));
        }
        Ok(Arc20Config { tick, mint_amount, mint_bitworkc: None, mint_bitworkr: None, meta: Vec::new() })
    }

    /// Sets the commit bitwork, which must be a non-empty hex string.
    pub fn with_bitworkc(self, bitworkc: String) -> (r: Result<Self>)
        ensures
            !arc20_bitwork_ok(bitworkc@) ==> (r matches Err(Error::InvalidBitwork(m)) && m@ == "Invalid bitwork format: "@ + bitworkc@),
            arc20_bitwork_ok(bitworkc@) ==> r == Ok::<Self, Error>(Arc20Config { mint_bitworkc: Some(bitworkc), ..self }),
    {
        if !Self::is_valid_bitwork(bitworkc.as_str()) {
            return Err(Error::InvalidBitwork(concat("Invalid bitwork format: ", bitworkc.as_str())));
        }
        Ok(Arc20Config { mint_bitworkc: Some(bitworkc), ..self })
    }

    /// Sets the reveal bitwork, which must be a non-empty hex string.
    pub fn with_bitworkr(self, bitworkr: String) -> (r: Result<Self>)
        ensures
            !arc20_bitwork_ok(bitworkr@) ==> (r matches Err(Error::InvalidBitwork(m)) && m@ == "Invalid bitwork format: "@ + bitworkr@),
            arc20_bitwork_ok(bitworkr@) ==> r == Ok::<Self, Error>(Arc20Config { mint_bitworkr: Some(bitworkr), ..self }),
    {
        if !Self::is_valid_bitwork(bitworkr.as_str()) {
            return Err(Error::InvalidBitwork(concat("Invalid bitwork format: ", bitworkr.as_str())));
        }
        Ok(Arc20Config { mint_bitworkr: Some(bitworkr), ..self })
    }

    /// Sets the metadata entry `key` to `value`, replacing an earlier one.
    pub fn with_meta(self, key: String, value: serde_json::Value) -> (r: Self)
        requires
            keys_distinct(self.meta@),
        ensures
            keys_distinct(r.meta@),
            as_map(r.meta@) == as_map(self.meta@).insert(key@, value),
            r.tick == self.tick,
            r.mint_amount == self.mint_amount,
            r.mint_bitworkc == self.mint_bitworkc,
            r.mint_bitworkr == self.mint_bitworkr,
    {
        let mut c = self;
        match find_key(&c.meta, key.as_str()) {
            Some(i) => {
                proof { lemma_as_map_update(c.meta@, i as int, key, value); }
                c.meta.set(i, (key, value));
            },
            None => {
                proof { lemma_push_distinct(c.meta@, key, value); }
                c.meta.push((key, value));
            },
        }
        c
    }

    /// Whether minting needs proof of work on the commit or the reveal.
    pub fn requires_mining(&self) -> (r: bool)
        ensures
            r == (self.mint_bitworkc is Some || self.mint_bitworkr is Some),
    {
        self.mint_bitworkc.is_some() || self.mint_bitworkr.is_some()
    }
}

/// `add_holder` fails: the supply or the holder's balance would overflow.
pub open spec fn add_holder_overflows(t: Arc20Token, address: Seq<char>, amount: Amount) -> bool {
    t.minted_supply.0 + amount.0 > u64::MAX || balance_of(t.holders@, address) + amount.0 > u64::MAX
}

impl Arc20Token {
    /// Each holder address occurs once.
    pub open spec fn wf(&self) -> bool {
        keys_distinct(self.holders@)
    }

    /// A token with nothing minted and no holders.
    pub fn new(config: Arc20Config) -> (r: Self)
        ensures
            r.wf(),
            r.config == config,
            r.minted_supply.0 == 0,
            r.mint_count == 0,
            r.holders@.len() == 0,
            r.minted_supply.0 == balance_sum(r.holders@),
            r.mint_bitwork_vec is None,
            r.mint_phase == 0,
    {
        Arc20Token {
            config,
            minted_supply: Amount(0),
            mint_count: 0,
            holders: Vec::new(),
            mint_bitwork_vec: None,
            mint_phase: 0,
        }
    }

    /// Minting is always open.
    pub fn can_mint(&self, _current_height: u32) -> (r: bool)
        ensures
            r,
    {
        true
    }

    /// The supply is unbounded: the largest amount.
    pub fn remaining_supply(&self) -> (r: Amount)
        ensures
            r.0 == u64::MAX,
    {
        Amount(u64::MAX)
    }

    /// Credits `amount` to `address`: the minted supply and the holder's
    /// balance grow by it and the mint count by one. Fails, changing nothing,
    /// where the supply or the balance would overflow.
    pub fn add_holder(&mut self, address: String, amount: Amount) -> (r: Result<()>)
        requires
            old(self).wf(),
            !add_holder_overflows(*old(self), address@, amount) ==> old(self).mint_count < u32::MAX,
        ensures
            final(self).wf(),
            old(self).minted_supply.0 + amount.0 > u64::MAX ==> (r matches Err(Error::InvalidAmount(m)) && m@ == "Supply overflow"@),
            old(self).minted_supply.0 + amount.0 <= u64::MAX && add_holder_overflows(*old(self), address@, amount)
                ==> (r matches Err(Error::InvalidAmount(m)) && m@ == "Holder amount overflow"@),
            r is Ok <==> !add_holder_overflows(*old(self), address@, amount),
            r is Err ==> as_map(final(self).holders@) == as_map(old(self).holders@)
                && final(self).minted_supply == old(self).minted_supply
                && final(self).mint_count == old(self).mint_count,
            r is Ok ==> as_map(final(self).holders@) == as_map(old(self).holders@).insert(
                address@, Amount((balance_of(old(self).holders@, address@) + amount.0) as u64))
                && final(self).minted_supply.0 == old(self).minted_supply.0 + amount.0
                && final(self).mint_count == old(self).mint_count + 1
                && balance_sum(final(self).holders@) == balance_sum(old(self).holders@) + amount.0,
            r is Ok ==> balance_of(final(self).holders@, address@) == balance_of(old(self).holders@, address@) + amount.0,
            r is Ok ==> forall|a: Seq<char>| a != address@
                ==> #[trigger] balance_of(final(self).holders@, a) == balance_of(old(self).holders@, a),
            old(self).minted_supply.0 == balance_sum(old(self).holders@)
                ==> final(self).minted_supply.0 == balance_sum(final(self).holders@),
            final(self).config == old(self).config,
            final(self).mint_bitwork_vec == old(self).mint_bitwork_vec,
            final(self).mint_phase == old(self).mint_phase,
    {
        let new_total = match self.minted_supply.0.checked_add(amount.0) {
            Some(v) => v,
            None => return Err(Error::InvalidAmount(to_owned_string("Supply overflow"))),
        };
        match find_key(&self.holders, address.as_str()) {
            Some(i) => {
                let cur = self.holders[i].1;
                proof {
                    lemma_as_map_get(self.holders@, i as int);
                }
                let updated = match cur.0.checked_add(amount.0) {
                    Some(v) => v,
                    None => return Err(Error::InvalidAmount(to_owned_string("Holder amount overflow"))),
                };
                proof {
                    lemma_as_map_update(self.holders@, i as int, address, Amount(updated));
                    lemma_balance_sum_update(self.holders@, i as int, address, Amount(updated));
                }
                self.holders.set(i, (address, Amount(updated)));
            },
            None => {
                proof {
                    lemma_as_map_dom(self.holders@, address@);
                    lemma_push_distinct(self.holders@, address, amount);
                    assert(self.holders@.push((address, amount)).drop_last() =~= self.holders@);
                }
                self.holders.push((address, amount));
            },
        }
        self.minted_supply = Amount(new_total);
        self.mint_count = self.mint_count + 1;
        Ok(())
    }

    /// The balance of `address` (zero where it holds nothing).
    pub fn get_holder_balance(&self, address: &str) -> (r: Amount)
        requires
            self.wf(),
        ensures
            r.0 == balance_of(self.holders@, address@),
    {
        match find_key(&self.holders, address) {
            Some(i) => {
                proof { lemma_as_map_get(self.holders@, i as int); }
                self.holders[i].1
            },
            None => {
                proof { lemma_as_map_dom(self.holders@, address@); }
                Amount(0)
            },
        }
    }

    /// Starts a new mint phase at the current mint count.
    pub fn update_mint_phase(&mut self)
        ensures
            *final(self) == (Arc20Token { mint_phase: old(self).mint_count, ..*old(self) }),
    {
        self.mint_phase = self.mint_count;
    }
}

} // verus!
