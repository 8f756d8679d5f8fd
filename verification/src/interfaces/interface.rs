//! What a network interface reports of itself.

use vstd::prelude::*;

verus! {

/// Information about a packet drop.
#[derive(Debug)]
pub struct PacketDropInfo {
    pub interface_id: String,
    pub reason: String,
}

/// Status of a network link.
#[derive(Clone, Debug)]
pub enum LinkStatus {
    Up,
    Down,
    Unknown,
}

/// Status of the network interface.
#[derive(Clone, Debug)]
pub struct InterfaceStatus {
    pub interface_id: String,
    pub link_status: LinkStatus,
    pub speed_mbps: Option<u64>,
    pub duplex: Option<String>,
    pub errors: Vec<String>,
}

} // verus!
