//! Packet validation for an Interledger node.
//!
//! The validator checks the expiry of Prepare packets before they are
//! handed on, bounds each outgoing request by the packet's remaining
//! lifetime, and checks that a Fulfill's preimage hashes to the Prepare's
//! execution condition. The waiting (the downstream future and the timer) is
//! left to the caller; every decision is made here.
mod clock;
pub mod crypto;
pub mod packet;
pub mod validator;

pub use crypto::condition_matches;
pub use packet::{ErrorCode, Fulfill, Prepare, Reject};
pub use validator::{
    check_fulfillment, deadline, outgoing_outcome, DownstreamEvent, IncomingAction,
    OutgoingAction, ValidatorService,
};

