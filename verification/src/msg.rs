//! The host-delivered callback inputs, modelled as plain values.
//!
//! The host hands each endpoint a message; the core consumes only a few of
//! its fields. These types carry exactly what the core reads: the ordering
//! discipline and version strings of a handshake proposal, the local
//! endpoint of a channel, and the payload and sequence number of a packet
//! event.

use vstd::prelude::*;

verus! {

/// The delivery discipline proposed for a channel.
#[derive(Clone, Copy, Debug, PartialEq, Eq, Structural)]
pub enum ChannelOrder {
    /// Packets may be delivered in any order.
    Unordered,
    /// Packets are delivered in send order or not at all.
    Ordered,
}

/// A channel-handshake proposal, as seen by the open endpoint.
#[derive(Debug)]
pub struct ChannelOpenProposal {
    /// The proposed delivery discipline.
    pub order: ChannelOrder,
    /// The locally proposed protocol version.
    pub version: String,
    /// The counterparty's proposed protocol version: absent on the first
    /// handshake step, present on the second.
    pub counterparty_version: Option<String>,
}

/// The local end of a channel.
#[derive(Debug)]
pub struct ChannelEndpoint {
    /// The host-assigned channel identifier.
    pub channel_id: String,
}

/// A channel as handed to the connect and close endpoints.
#[derive(Debug)]
pub struct ChannelInfo {
    /// The finalised local endpoint.
    pub endpoint: ChannelEndpoint,
}

/// A packet-callback event: an acknowledgement or a timeout notice for a
/// previously sent packet.
#[derive(Debug)]
pub struct PacketEvent {
    /// The opaque packet payload.
    pub payload: Vec<u8>,
    /// The host-assigned sequence number.
    pub sequence: u64,
}

} // verus!
