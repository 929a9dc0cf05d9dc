//! A quantity of bitcoin, counted in satoshis.

use vstd::prelude::*;
use crate::text::{concat, decimal_string, decimal_text};

verus! {

/// An amount of satoshis.
#[derive(Clone, Copy, Debug, PartialEq, Eq, Structural, Hash, PartialOrd, Ord)]
pub struct Amount(pub u64);

/// Satoshis in one bitcoin.
pub const SATS_PER_BTC: u64 = 100_000_000;

impl Amount {
    /// Zero satoshis.
    pub fn zero() -> (r: Amount)
        ensures
            r.0 == 0,
    {
        Amount(0)
    }

    /// One satoshi.
    pub fn satoshi() -> (r: Amount)
        ensures
            r.0 == 1,
    {
        Amount(1)
    }

    /// One bitcoin.
    pub fn bitcoin() -> (r: Amount)
        ensures
            r.0 == SATS_PER_BTC,
    {
        Amount(SATS_PER_BTC)
    }

    /// The amount of `sats` satoshis.
    pub fn from_sat(sats: u64) -> (r: Self)
        ensures
            r.0 == sats,
    {
        Amount(sats)
    }

    /// The number of satoshis.
    pub fn to_sat(self) -> (r: u64)
        ensures
            r == self.0,
    {
        self.0
    }

    /// The sum of two amounts; the sum must fit in a `u64`.
    pub fn add(self, other: Amount) -> (r: Amount)
        requires
            self.0 + other.0 <= u64::MAX,
        ensures
            r.0 == self.0 + other.0,
    {
        Amount(self.0 + other.0)
    }

    /// Adds `other` to this amount in place; the sum must fit in a `u64`.
    pub fn add_assign(&mut self, other: Amount)
        requires
            old(self).0 + other.0 <= u64::MAX,
        ensures
            final(self).0 == old(self).0 + other.0,
    {
        *self = self.add(other);
    }

    /// The difference of two amounts; `other` must not exceed `self`.
    pub fn sub(self, other: Amount) -> (r: Amount)
        requires
            other.0 <= self.0,
        ensures
            r.0 == self.0 - other.0,
    {
        Amount(self.0 - other.0)
    }

    /// Subtracts `other` from this amount in place; `other` must not exceed it.
    pub fn sub_assign(&mut self, other: Amount)
        requires
            other.0 <= old(self).0,
        ensures
            final(self).0 == old(self).0 - other.0,
    {
        *self = self.sub(other);
    }

    /// The amount as text: its satoshis in decimal, then " sats".
    pub fn to_string(&self) -> (r: String)
        ensures
            r@ == decimal_text(self.0 as nat) + " sats"@,
    {
        let digits = decimal_string(self.0);
        concat(digits.as_str(), " sats")
    }

    /// The sum, or `None` where it does not fit in a `u64`.
    pub fn checked_add(self, other: Amount) -> (r: Option<Amount>)
        ensures
            r matches Some(a) ==> a.0 == self.0 + other.0,
            r is None <==> self.0 + other.0 > u64::MAX,
    {
        match self.0.checked_add(other.0) {
            Some(v) => Some(Amount(v)),
            None => None,
        }
    }
}

/// Adding an amount and then subtracting it gives the first amount back
/// (where the sum fits, as `add` asks).
pub proof fn law_add_then_sub(a: Amount, b: Amount)
    requires
        a.0 + b.0 <= u64::MAX,
    ensures
        Amount((a.0 + b.0) as u64).0 - b.0 == a.0,
{
}

} // verus!
