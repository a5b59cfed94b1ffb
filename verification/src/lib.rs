//! Channel-lifecycle and packet-callback core of a send-only cross-chain
//! gateway contract.
//!
//! The core validates channel-handshake proposals, records connected channels
//! in a persistent mapping, refuses channel closure and inbound packets, and
//! acknowledges outbound packet results. The host that drives the callbacks
//! and the keyed store it provides are modelled as explicit parameters.

use vstd::prelude::*;

pub mod error;
pub mod ibc;
pub mod msg;
pub mod response;
pub mod state;

verus! {

/// The protocol version this gateway speaks.
pub const IBC_APP_VERSION: &'static str = "cross-chain-link-v0";

/// The protocol version this gateway speaks, as a sequence of characters.
pub open spec fn spec_app_version() -> Seq<char> {
    "cross-chain-link-v0"@
}

/// The protocol version this gateway speaks.
pub fn app_version() -> (s: String)
    ensures
        s@ == spec_app_version(),
{
    "cross-chain-link-v0".to_owned()
}

} // verus!
