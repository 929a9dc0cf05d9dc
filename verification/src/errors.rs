//! The library's error type.

use vstd::prelude::*;

verus! {

/// Everything that can go wrong in this library and around it.
#[derive(Debug)]
pub enum Error {
    NetworkError(String),
    AddressError(String),
    TransactionError(String),
    PsbtError(String),
    MiningError(String),
    WalletError(String),
    SerializationError(String),
    DeserializationError(String),
    WorkerError(String),
    InvalidAmount(String),
    InvalidTicker(String),
    InvalidBitwork(String),
    WasmError(String),
    IoError(String),
    SerdeError(String),
    HexError(String),
    SerdeJsonError(String),
    AsyncError(String),
    InvalidInput(String),
    DatabaseError(String),
    RealmNameInvalid(String),
    ParentRealmNotFound(String),
    ContainerNotFound(String),
    ParentOwnerInvalid(String),
    OwnershipError(String),
    AtomicalNotFound(String),
    ScriptError(String),
    NotImplemented(String),
    Other(String),
}

/// `Result` with the library's error.
pub type Result<T> = std::result::Result<T, Error>;

/// The text that introduces each kind of error in its message.
pub open spec fn message_prefix(e: Error) -> Seq<char> {
    match e {
        Error::NetworkError(_) => "Network error: "@,
        Error::AddressError(_) => "Address error: "@,
        Error::TransactionError(_) => "Transaction error: "@,
        Error::PsbtError(_) => "PSBT error: "@,
        Error::MiningError(_) => "Mining error: "@,
        Error::WalletError(_) => "Wallet error: "@,
        Error::SerializationError(_) => "Serialization error: "@,
        Error::DeserializationError(_) => "Deserialization error: "@,
        Error::WorkerError(_) => "Worker error: "@,
        Error::InvalidAmount(_) => "Invalid amount: "@,
        Error::InvalidTicker(_) => "Invalid ticker: "@,
        Error::InvalidBitwork(_) => "Invalid bitwork: "@,
        Error::WasmError(_) => "WASM error: "@,
        Error::IoError(_) => "IO error: "@,
        Error::SerdeError(_) => "Serde error: "@,
        Error::HexError(_) => "Hex error: "@,
        Error::SerdeJsonError(_) => "JSON error: "@,
        Error::AsyncError(_) => "Async error: "@,
        Error::InvalidInput(_) => "Invalid input: "@,
        Error::DatabaseError(_) => "Database error: "@,
        Error::RealmNameInvalid(_) => "Invalid realm name: "@,
        Error::ParentRealmNotFound(_) => "Parent realm not found: "@,
        Error::ContainerNotFound(_) => "Container not found: "@,
        Error::ParentOwnerInvalid(_) => "Invalid parent owner: "@,
        Error::OwnershipError(_) => "Ownership error: "@,
        Error::AtomicalNotFound(_) => "Atomical not found: "@,
        Error::ScriptError(_) => "Script error: "@,
        Error::NotImplemented(_) => "Not implemented: "@,
        Error::Other(_) => "Other error: "@,
    }
}

/// The detail text that a variant carries.
pub open spec fn detail(e: Error) -> Seq<char> {
    match e {
        Error::NetworkError(m) => m@,
        Error::AddressError(m) => m@,
        Error::TransactionError(m) => m@,
        Error::PsbtError(m) => m@,
        Error::MiningError(m) => m@,
        Error::WalletError(m) => m@,
        Error::SerializationError(m) => m@,
        Error::DeserializationError(m) => m@,
        Error::WorkerError(m) => m@,
        Error::InvalidAmount(m) => m@,
        Error::InvalidTicker(m) => m@,
        Error::InvalidBitwork(m) => m@,
        Error::WasmError(m) => m@,
        Error::IoError(m) => m@,
        Error::SerdeError(m) => m@,
        Error::HexError(m) => m@,
        Error::SerdeJsonError(m) => m@,
        Error::AsyncError(m) => m@,
        Error::InvalidInput(m) => m@,
        Error::DatabaseError(m) => m@,
        Error::RealmNameInvalid(m) => m@,
        Error::ParentRealmNotFound(m) => m@,
        Error::ContainerNotFound(m) => m@,
        Error::ParentOwnerInvalid(m) => m@,
        Error::OwnershipError(m) => m@,
        Error::AtomicalNotFound(m) => m@,
        Error::ScriptError(m) => m@,
        Error::NotImplemented(m) => m@,
        Error::Other(m) => m@,
    }
}

impl Error {
    /// The error's message: a prefix naming its kind, then its detail.
    pub fn message(&self) -> (r: String)
        ensures
            r@ == message_prefix(*self) + detail(*self),
    {
        let (prefix, text): (&str, String) = match self {
            Error::NetworkError(m) => ("Network error: ", m.clone()),
            Error::AddressError(m) => ("Address error: ", m.clone()),
            Error::TransactionError(m) => ("Transaction error: ", m.clone()),
            Error::PsbtError(m) => ("PSBT error: ", m.clone()),
            Error::MiningError(m) => ("Mining error: ", m.clone()),
            Error::WalletError(m) => ("Wallet error: ", m.clone()),
            Error::SerializationError(m) => ("Serialization error: ", m.clone()),
            Error::DeserializationError(m) => ("Deserialization error: ", m.clone()),
            Error::WorkerError(m) => ("Worker error: ", m.clone()),
            Error::InvalidAmount(m) => ("Invalid amount: ", m.clone()),
            Error::InvalidTicker(m) => ("Invalid ticker: ", m.clone()),
            Error::InvalidBitwork(m) => ("Invalid bitwork: ", m.clone()),
            Error::WasmError(m) => ("WASM error: ", m.clone()),
            Error::IoError(m) => ("IO error: ", m.clone()),
            Error::SerdeError(m) => ("Serde error: ", m.clone()),
            Error::HexError(m) => ("Hex error: ", m.clone()),
            Error::SerdeJsonError(m) => ("JSON error: ", m.clone()),
            Error::AsyncError(m) => ("Async error: ", m.clone()),
            Error::InvalidInput(m) => ("Invalid input: ", m.clone()),
            Error::DatabaseError(m) => ("Database error: ", m.clone()),
            Error::RealmNameInvalid(m) => ("Invalid realm name: ", m.clone()),
            Error::ParentRealmNotFound(m) => ("Parent realm not found: ", m.clone()),
            Error::ContainerNotFound(m) => ("Container not found: ", m.clone()),
            Error::ParentOwnerInvalid(m) => ("Invalid parent owner: ", m.clone()),
            Error::OwnershipError(m) => ("Ownership error: ", m.clone()),
            Error::AtomicalNotFound(m) => ("Atomical not found: ", m.clone()),
            Error::ScriptError(m) => ("Script error: ", m.clone()),
            Error::NotImplemented(m) => ("Not implemented: ", m.clone()),
            Error::Other(m) => ("Other error: ", m.clone()),
        };
        let r = crate::text::concat(prefix, text.as_str());
        r
    }
}

} // verus!
