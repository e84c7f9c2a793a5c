//! A verified fungible-token validator and transaction builder for a
//! cell-based ledger.
//!
//! The ledger's state is a set of immutable cells, each carrying a
//! capacity, an owning authorization policy, an optional type
//! authorization policy and a data payload.  This crate holds the token
//! logic: building transfer, mint and creation drafts, verifying balance
//! conservation and owner-authorized minting, resolving and decoding the
//! singleton metadata record, and the string-keyed method dispatch of the
//! rich calling convention, with a legacy fallback path.
//!
//! Every function is specified against a mathematical view of the data:
//! drafts, cells and policies as records of sequences, amounts as
//! integers.  The one assumption taken on trust is the ledger's blake2b
//! digest, named in `hashing`.

pub mod balance;
pub mod codec;
pub mod config;
pub mod dispatch;
pub mod error;
pub mod fallback;
pub mod hashing;
pub mod laws;
pub mod modules;
pub mod resolver;
pub mod types;

pub use error::Error;
