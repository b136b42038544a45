//! IPC message envelope: acknowledged by the core, not specified beyond its
//! shape.

use vstd::prelude::*;

verus! {

/// Capacity of a message payload in bytes.
pub const IPC_PAYLOAD_MAX: usize = 256;

/// One IPC message: sender, channel, payload length, and the payload buffer.
pub struct Message {
    pub sender_pid: u32,
    pub channel: u32,
    pub len: u16,
    pub payload: [u8; 256],
}

} // verus!
