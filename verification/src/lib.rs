//! Inclusion proofs for ledger transactions.
//!
//! Given a transaction identifier and the data of the finalized checkpoint
//! that holds the transaction, the library cross-validates the transaction
//! against the checkpoint's manifest and assembles a compact bundle that a
//! light client can verify on its own.

pub mod base58;
pub mod failure;
pub mod digest;
pub mod checkpoint;
pub mod validate;
pub mod bundle;
pub mod request;
pub mod laws;

pub use failure::Failure;
pub use digest::Digest;
pub use checkpoint::{CheckpointContents, CheckpointData, CheckpointSummary, ManifestEntry, TransactionRecord};
pub use validate::{cross_validate, ValidatedTriple};
pub use bundle::{assemble, prove_inclusion, TxDataRequest, TxDataResponse};
pub use request::{step, Action, Event, RequestState};
