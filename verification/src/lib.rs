//! M2PA (MTP2 Peer-to-Peer Adaptation Layer, RFC 4165) codec and link state
//! machine.
//!
//! Every M2PA message consists of:
//! 1. Common Message Header (8 bytes) - version, class, type, length
//! 2. M2PA Header (8 bytes) - BSN and FSN sequence numbers
//! 3. Message body - either User Data (MTP3 MSU) or Link Status
//!
//! Link Status messages travel on SCTP stream 0, User Data on stream 1.

pub mod error;
pub mod header;
pub mod link_status;
pub mod message;
pub mod state_machine;
pub mod text;
pub mod user_data;
pub mod wire;

pub use error::M2paError;
pub use link_status::{LinkState, LinkStatusMessage};
pub use message::M2paMessage;
pub use state_machine::{M2paState, M2paStateMachine};
pub use user_data::UserDataMessage;
pub use header::{decode_m2pa_header, encode_m2pa_header, CommonMessageHeader, M2PAHeader, OutOfBounds};

use vstd::prelude::*;

verus! {

/// Message type: User Data (carries MTP3 MSU).
pub const MESSAGE_TYPE_USER_DATA: u8 = 1;

/// Message type: Link Status.
pub const MESSAGE_TYPE_LINK_STATUS: u8 = 2;

/// Message class for M2PA.
pub const MESSAGE_CLASS_M2PA: u8 = 11;

/// M2PA protocol version.
pub const VERSION: u8 = 1;

/// SCTP Payload Protocol Identifier for M2PA.
pub const SCTP_PPID: u32 = 5;

} // verus!
