pub mod mining;
pub mod mint_ft;
pub mod mint_subrealm;
