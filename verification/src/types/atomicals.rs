//! Atomicals operations and the payload that an operation carries.

use vstd::prelude::*;

verus! {

/// The operations of the Atomicals protocol.
#[derive(Debug, Clone, Copy, PartialEq, Eq, Structural)]
pub enum AtomicalsOperation {
    /// Fixed-supply fungible token.
    Ft,
    /// Decentralised (mint-as-you-go) fungible token.
    Dft,
    /// Non-fungible token.
    Nft,
    /// Decentralised mint of a fungible token.
    Dmt,
    /// Data storage.
    Dat,
    /// Modification.
    Mod,
    /// Event.
    Evt,
    /// Seal.
    Seal,
}

/// The protocol's name of each operation, as it appears in payloads.
pub open spec fn operation_name(op: AtomicalsOperation) -> Seq<char> {
    match op {
        AtomicalsOperation::Ft => "ft"@,
        AtomicalsOperation::Dft => "dft"@,
        AtomicalsOperation::Nft => "nft"@,
        AtomicalsOperation::Dmt => "dmt"@,
        AtomicalsOperation::Dat => "dat"@,
        AtomicalsOperation::Mod => "mod"@,
        AtomicalsOperation::Evt => "evt"@,
        AtomicalsOperation::Seal => "sl"@,
    }
}

impl AtomicalsOperation {
    /// The protocol's name of the operation.
    pub fn name(&self) -> (r: &'static str)
        ensures
            r@ == operation_name(*self),
    {
        match self {
            AtomicalsOperation::Ft => "ft",
            AtomicalsOperation::Dft => "dft",
            AtomicalsOperation::Nft => "nft",
            AtomicalsOperation::Dmt => "dmt",
            AtomicalsOperation::Dat => "dat",
            AtomicalsOperation::Mod => "mod",
            AtomicalsOperation::Evt => "evt",
            AtomicalsOperation::Seal => "sl",
        }
    }
}

/// The payload of an Atomicals operation.
#[derive(Debug, Clone)]
pub struct AtomicalsPayload {
    pub op: AtomicalsOperation,
    /// Ticker (fungible tokens).
    pub tick: Option<String>,
    /// Total supply (fixed-supply tokens).
    pub amt: Option<u64>,
    pub meta: Option<serde_json::Value>,
    pub args: Option<serde_json::Value>,
    pub init: Option<serde_json::Value>,
    pub ctx: Option<serde_json::Value>,
}

impl AtomicalsPayload {
    /// A payload deploying the fungible token `ticker` with supply `amount`.
    pub fn new_ft(ticker: String, amount: u64) -> (r: Self)
        ensures
            r.op == AtomicalsOperation::Ft,
            r.tick == Some(ticker),
            r.amt == Some(amount),
            r.meta is None && r.args is None && r.init is None && r.ctx is None,
    {
        AtomicalsPayload {
            op: AtomicalsOperation::Ft,
            tick: Some(ticker),
            amt: Some(amount),
            meta: None,
            args: None,
            init: None,
            ctx: None,
        }
    }

    /// A payload minting more of the existing fungible token `ticker`.
    pub fn new_mint_ft(ticker: String) -> (r: Self)
        ensures
            r.op == AtomicalsOperation::Ft,
            r.tick == Some(ticker),
            r.amt is None,
            r.meta is None && r.args is None && r.init is None && r.ctx is None,
    {
        AtomicalsPayload {
            op: AtomicalsOperation::Ft,
            tick: Some(ticker),
            amt: None,
            meta: None,
            args: None,
            init: None,
            ctx: None,
        }
    }

    /// Sets the metadata.
    pub fn with_meta(self, meta: serde_json::Value) -> (r: Self)
        ensures
            r == (AtomicalsPayload { meta: Some(meta), ..self }),
    {
        AtomicalsPayload { meta: Some(meta), ..self }
    }

    /// Sets the arguments.
    pub fn with_args(self, args: serde_json::Value) -> (r: Self)
        ensures
            r == (AtomicalsPayload { args: Some(args), ..self }),
    {
        AtomicalsPayload { args: Some(args), ..self }
    }

    /// Sets the initial data.
    pub fn with_init(self, init: serde_json::Value) -> (r: Self)
        ensures
            r == (AtomicalsPayload { init: Some(init), ..self }),
    {
        AtomicalsPayload { init: Some(init), ..self }
    }

    /// Sets the context data.
    pub fn with_ctx(self, ctx: serde_json::Value) -> (r: Self)
        ensures
            r == (AtomicalsPayload { ctx: Some(ctx), ..self }),
    {
        AtomicalsPayload { ctx: Some(ctx), ..self }
    }
}

/// The envelope marker of Atomicals scripts.
pub const ATOMICALS_PROTOCOL_ENVELOPE: [u8; 4] = [0x61u8, 0x74u8, 0x6fu8, 0x6du8];

/// The protocol version.
pub const ATOMICALS_PROTOCOL_VERSION: u8 = 1;

} // verus!
