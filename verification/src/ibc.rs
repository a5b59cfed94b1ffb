//! The six host callbacks: channel open, connect and close, and packet
//! receive, acknowledgement and timeout.
//!
//! Open is a pure validator of the handshake proposal; connect records the
//! channel in the store; close and receive are refused unconditionally, as
//! this gateway only sends; acknowledgement and timeout are accepted
//! unconditionally and only emit an attribute.

use vstd::prelude::*;

use crate::app_version;
use crate::spec_app_version;
use crate::error::{ContractError, StdError};
use crate::error::{
    spec_close_error_msg, spec_counterparty_error_msg, spec_receive_error_msg,
    spec_version_error_msg,
};
use crate::msg::{ChannelInfo, ChannelOpenProposal, ChannelOrder, PacketEvent};
use crate::response::{BasicResponse, ChannelOpenResponse, ReceiveResponse};
use crate::state::ChannelStore;

verus! {

/// When a handshake proposal is accepted: ordered delivery, the gateway's
/// version, and — when the counterparty has already proposed one — the
/// gateway's version on the counterparty side too.
pub open spec fn spec_open_accepts(msg: ChannelOpenProposal) -> bool {
    &&& msg.order == ChannelOrder::Ordered
    &&& msg.version@ == spec_app_version()
    &&& (msg.counterparty_version matches Some(cv) ==> cv@ == spec_app_version())
}

/// Validate a channel-handshake proposal. Pure: the store is never touched.
pub fn ibc_channel_open(store: &mut ChannelStore, msg: &ChannelOpenProposal) -> (r: Result<
    ChannelOpenResponse,
    ContractError,
>)
    ensures
        final(store)@ == old(store)@,
        r is Ok <==> spec_open_accepts(*msg),
        r is Ok ==> r->Ok_0.version@ == spec_app_version(),
        msg.order != ChannelOrder::Ordered ==> r matches Err(
            ContractError::OnlyOrderedChannel,
        ),
        msg.order == ChannelOrder::Ordered && msg.version@ != spec_app_version() ==> (r matches Err(
            ContractError::Std(e),
        ) && e.msg@ == spec_version_error_msg()),
        (msg.order == ChannelOrder::Ordered && msg.version@ == spec_app_version()
            && (msg.counterparty_version matches Some(cv) && cv@ != spec_app_version())) ==> (
        r matches Err(ContractError::Std(e)) && e.msg@ == spec_counterparty_error_msg()),
{
    if msg.order != ChannelOrder::Ordered {
        return Err(ContractError::OnlyOrderedChannel);
    }
    let version = app_version();
    if !(msg.version == version) {
        return Err(ContractError::Std(StdError {
            msg: "Must set version to `cross-chain-link-v0`".to_owned(),
        }));
    }
    match &msg.counterparty_version {
        Some(counter_version) => {
            if !(*counter_version == version) {
                return Err(ContractError::Std(StdError {
                    msg: "Counterparty version must be `cross-chain-link-v0`".to_owned(),
                }));
            }
        },
        None => {},
    }
    Ok(ChannelOpenResponse { version })
}

/// Record a now-connected channel and advertise it through two attributes.
/// The host is the authority on handshake progression, so every connect
/// succeeds; a repeated connect is an idempotent overwrite.
pub fn ibc_channel_connect(store: &mut ChannelStore, channel: &ChannelInfo) -> (r: Result<
    BasicResponse,
    StdError,
>)
    ensures
        final(store)@ == old(store)@.insert(channel.endpoint.channel_id@, true),
        final(store)@[channel.endpoint.channel_id@] == true,
        r is Ok,
        ({
            let attrs = r->Ok_0.attributes@;
            &&& attrs.len() == 2
            &&& attrs[0].key@ == "action"@
            &&& attrs[0].value@ == "ibc_connect"@
            &&& attrs[1].key@ == "chain_id"@
            &&& attrs[1].value@ == channel.endpoint.channel_id@
        }),
{
    let channel_id = channel.endpoint.channel_id.clone();
    store.save(channel_id.clone());
    Ok(
        BasicResponse::new().add_attribute("action".to_owned(), "ibc_connect".to_owned())
            .add_attribute("chain_id".to_owned(), channel_id),
    )
}

/// Refuse a user-initiated channel close. The store is never touched.
pub fn ibc_channel_close(store: &mut ChannelStore, _msg: &ChannelInfo) -> (r: Result<
    BasicResponse,
    StdError,
>)
    ensures
        final(store)@ == old(store)@,
        r matches Err(e) && e.msg@ == spec_close_error_msg(),
{
    Err(StdError { msg: "user cannot close channel".to_owned() })
}

/// Refuse every inbound packet: this gateway is send-only. The store is
/// never touched.
pub fn ibc_packet_receive(store: &mut ChannelStore, _msg: &PacketEvent) -> (r: Result<
    ReceiveResponse,
    StdError,
>)
    ensures
        final(store)@ == old(store)@,
        r matches Err(e) && e.msg@ == spec_receive_error_msg(),
{
    Err(
        StdError {
            msg: "receive should never be called as this contract should never receive packets".to_owned(),
        },
    )
}

/// Accept an acknowledgement of an outbound packet. The payload is not
/// inspected and the store is never touched.
pub fn ibc_packet_ack(store: &mut ChannelStore, _msg: &PacketEvent) -> (r: Result<
    BasicResponse,
    StdError,
>)
    ensures
        final(store)@ == old(store)@,
        r is Ok,
        r->Ok_0.attributes@.len() == 1,
        r->Ok_0.attributes@[0].key@ == "action"@,
        r->Ok_0.attributes@[0].value@ == "ibc_packet_ack"@,
{
    Ok(BasicResponse::new().add_attribute("action".to_owned(), "ibc_packet_ack".to_owned()))
}

/// Accept a timeout notice for an outbound packet. No compensating action
/// is taken and the store is never touched.
pub fn ibc_packet_timeout(store: &mut ChannelStore, _msg: &PacketEvent) -> (r: Result<
    BasicResponse,
    StdError,
>)
    ensures
        final(store)@ == old(store)@,
        r is Ok,
        r->Ok_0.attributes@.len() == 1,
        r->Ok_0.attributes@[0].key@ == "action"@,
        r->Ok_0.attributes@[0].value@ == "ibc_packet_timeout"@,
{
    Ok(BasicResponse::new().add_attribute("action".to_owned(), "ibc_packet_timeout".to_owned()))
}

/// Law: connect is idempotent. Connect maps the channel identifier to
/// `true` in the store; recording the same identifier a second time leaves
/// the observable mapping exactly as after the first recording.
pub proof fn lemma_connect_idempotent(channels: Map<Seq<char>, bool>, channel_id: Seq<char>)
    ensures
        channels.insert(channel_id, true).insert(channel_id, true) == channels.insert(
            channel_id,
            true,
        ),
{
    assert(channels.insert(channel_id, true).insert(channel_id, true) =~= channels.insert(
        channel_id,
        true,
    ));
}

/// Law: the connected-channel mapping is monotonic. A connect never removes
/// a key, and every channel already recorded keeps its marker.
pub proof fn lemma_connect_monotonic(channels: Map<Seq<char>, bool>, channel_id: Seq<char>)
    ensures
        channels.dom().subset_of(channels.insert(channel_id, true).dom()),
        forall|k: Seq<char>|
            channels.dom().contains(k) && k != channel_id ==> channels.insert(
                channel_id,
                true,
            )[k] == channels[k],
{
}

} // verus!
