//! Social-recovery custody engine.
//!
//! A vault holds assets on behalf of an owner and can be recovered by a
//! quorum of designated guardians: once `threshold` distinct guardians have
//! approved a pending recovery and the timelock has elapsed, ownership moves
//! to the designated new owner and every configured asset is scheduled for
//! transfer.  Recovery can also be started by an inactivity watchdog or by a
//! message from a trusted remote chain; a monotonically increasing
//! `recovery_id` fences stale votes and messages from superseded rounds.
//!
//! The crate is a pure state machine over plain values: the caller supplies
//! the current time and the caller identity, and receives the commands
//! (outbound messages, asset transfers, slashing signals) that an embedding
//! runtime must carry out.

pub mod ids;
pub mod errors;
pub mod assets;
pub mod codec;
pub mod model;
pub mod vault;
pub mod laws;
