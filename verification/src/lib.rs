//! Coordination of concurrent activations of an environment build.
//!
//! Several independent processes may race to bring the same rendered
//! environment build into use. Exactly one of them (the starter) performs the
//! startup work for a given build; every other process waits for the starter
//! to mark its activation ready and then attaches itself as a consumer.
//!
//! The registry of activations is held in [`activations::Activations`]; the
//! start-or-attach decision and the bounded wait-and-retry protocol live in
//! [`start_or_attach`]; failures are classified in [`error`]; the data model
//! of the commands around the protocol is in [`environment`]. All file
//! handling, locking and liveness probing is left to the caller, which hands
//! the library plain values: the registry as read, the current time, and
//! whether the starter process is alive.

pub mod activations;
pub mod environment;
pub mod error;
pub mod start_or_attach;
