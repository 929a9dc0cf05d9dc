pub mod amount;

pub use amount::Amount;
pub mod realm;

pub use realm::RealmConfig;
pub mod json;
pub mod subrealm;
pub mod mint;
pub mod assoc;
pub mod arc20;

pub use arc20::{Arc20Config, Arc20Token};
pub mod atomicals;
pub mod transaction;

pub use transaction::AtomicalsTx;
pub mod wasm;
