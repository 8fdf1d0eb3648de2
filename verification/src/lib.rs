//! An NFT minter: the rules by which a collection of numbered tokens is put on
//! sale, minted, shuffled and administered.
pub mod admin;
pub mod chain;
pub mod contract;
pub mod error;
pub mod fees;
pub mod history;
pub mod laws;
pub mod mint;
pub mod msg;
pub mod outcome;
pub mod outside;
pub mod query;
pub mod setup;
pub mod state;
pub mod text;
pub mod tokens;
pub mod upheld;
