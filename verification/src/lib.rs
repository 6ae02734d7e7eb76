//! A custody vault that holds user funds under a time lock, with a
//! governance-controlled emergency-override path: a quorum of governors can
//! force an early unlock through a propose/approve/execute protocol.
//!
//! The host ledger's primitives (authentication, durable storage, event
//! publication, timestamps) are external collaborators: every operation here
//! works on an explicit state object and takes the authenticated caller and
//! the current ledger timestamp as plain arguments, so that the whole
//! decision logic is verified. The vault additionally records each event it
//! emits for the host to publish.
//!
//! Beside the vault stand two simpler companions sharing the same modelling:
//! a recurring-deposit scheduler and a capital-allocation router.

pub mod address;
pub mod lock_vault;
pub mod sip_manager;
pub mod yield_router;
