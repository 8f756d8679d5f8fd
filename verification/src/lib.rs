//! Node-local control core of a packet-capture engine: a generic state
//! machine with bounded history, and the validation, synchronisation,
//! recovery and transaction logic built on it.
//!
//! Everything here is synchronous and verified. Where a component has to
//! wait for the outside world (a reporter, snapshot storage, the delay
//! before a retry), it hands out what is to be done and takes back what came
//! of it: the waiting is the caller's, the decisions are made here.
//!
//! Each type has a view, a plain mathematical value, and the contracts of the
//! functions are stated over these views. The laws that hold across
//! functions are proof functions whose names begin with `lemma_`.

pub mod time;
pub mod text;
pub mod capture_error;
pub mod state_machine;
pub mod state_sync;
pub mod state_validator;
pub mod state_recovery;
pub mod resources;
pub mod transaction;
pub mod interfaces;
