//! Error taxonomy of the gateway core.
//!
//! The host surfaces two shapes of failure: a structured validation error
//! (a non-ordered channel was proposed) and a generic error carrying a
//! message. Every message the core produces is a fixed literal, stated here
//! as a spec function so contracts can pin it exactly.

use vstd::prelude::*;

verus! {

/// A generic host error: a bare message.
#[derive(Debug)]
pub struct StdError {
    pub msg: String,
}

/// Errors returned by the channel-open endpoint.
#[derive(Debug)]
pub enum ContractError {
    /// The handshake proposed a delivery discipline other than ordered.
    OnlyOrderedChannel,
    /// A generic error with a fixed message.
    Std(StdError),
}

/// Message when the locally proposed version is not the gateway's version.
pub open spec fn spec_version_error_msg() -> Seq<char> {
    "Must set version to `cross-chain-link-v0`"@
}

/// Message when the counterparty's proposed version is not the gateway's version.
pub open spec fn spec_counterparty_error_msg() -> Seq<char> {
    "Counterparty version must be `cross-chain-link-v0`"@
}

/// Message when a user attempts to close a channel.
pub open spec fn spec_close_error_msg() -> Seq<char> {
    "user cannot close channel"@
}

/// Message when an inbound packet reaches this send-only contract.
pub open spec fn spec_receive_error_msg() -> Seq<char> {
    "receive should never be called as this contract should never receive packets"@
}

/// Law: the local version-mismatch message names the required version
/// literally — the gateway's version string appears verbatim inside it.
pub proof fn lemma_version_error_msg_names_version()
    ensures
        spec_version_error_msg().subrange(21, 40) == crate::spec_app_version(),
{
    reveal_strlit("Must set version to `cross-chain-link-v0`");
    reveal_strlit("cross-chain-link-v0");
    assert(spec_version_error_msg().subrange(21, 40) =~= crate::spec_app_version());
}

/// Law: the counterparty version-mismatch message names the required
/// version literally — the gateway's version string appears verbatim
/// inside it.
pub proof fn lemma_counterparty_error_msg_names_version()
    ensures
        spec_counterparty_error_msg().subrange(30, 49) == crate::spec_app_version(),
{
    reveal_strlit("Counterparty version must be `cross-chain-link-v0`");
    reveal_strlit("cross-chain-link-v0");
    assert(spec_counterparty_error_msg().subrange(30, 49) =~= crate::spec_app_version());
}

} // verus!
