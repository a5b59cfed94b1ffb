use ibc_gateway::error::ContractError;
use ibc_gateway::ibc::{
    ibc_channel_close, ibc_channel_connect, ibc_channel_open, ibc_packet_ack,
    ibc_packet_receive, ibc_packet_timeout,
};
use ibc_gateway::msg::{
    ChannelEndpoint, ChannelInfo, ChannelOpenProposal, ChannelOrder, PacketEvent,
};
use ibc_gateway::state::ChannelStore;
use ibc_gateway::{app_version, IBC_APP_VERSION};

fn proposal(
    order: ChannelOrder,
    version: &str,
    counterparty_version: Option<&str>,
) -> ChannelOpenProposal {
    ChannelOpenProposal {
        order,
        version: version.to_owned(),
        counterparty_version: counterparty_version.map(|v| v.to_owned()),
    }
}

fn channel(channel_id: &str) -> ChannelInfo {
    ChannelInfo {
        endpoint: ChannelEndpoint {
            channel_id: channel_id.to_owned(),
        },
    }
}

fn packet() -> PacketEvent {
    PacketEvent {
        payload: vec![1, 2, 3],
        sequence: 1,
    }
}

#[test]
fn version_constant() {
    assert_eq!(IBC_APP_VERSION, "cross-chain-link-v0");
    assert_eq!(app_version(), "cross-chain-link-v0");
}

#[test]
fn open_accepts_ordered_correct_version() {
    let mut store = ChannelStore::new();
    let msg = proposal(ChannelOrder::Ordered, "cross-chain-link-v0", None);
    match ibc_channel_open(&mut store, &msg) {
        Ok(resp) => assert_eq!(resp.version, "cross-chain-link-v0"),
        Err(e) => panic!("open should accept: {:?}", e),
    }
}

#[test]
fn open_accepts_matching_counterparty_version() {
    let mut store = ChannelStore::new();
    let msg = proposal(
        ChannelOrder::Ordered,
        "cross-chain-link-v0",
        Some("cross-chain-link-v0"),
    );
    match ibc_channel_open(&mut store, &msg) {
        Ok(resp) => assert_eq!(resp.version, "cross-chain-link-v0"),
        Err(e) => panic!("open should accept: {:?}", e),
    }
}

#[test]
fn open_rejects_unordered() {
    let mut store = ChannelStore::new();
    let msg = proposal(ChannelOrder::Unordered, "cross-chain-link-v0", None);
    let r = ibc_channel_open(&mut store, &msg);
    assert!(matches!(r, Err(ContractError::OnlyOrderedChannel)));
}

#[test]
fn open_rejects_wrong_version_naming_the_required_one() {
    let mut store = ChannelStore::new();
    let msg = proposal(ChannelOrder::Ordered, "v1", None);
    match ibc_channel_open(&mut store, &msg) {
        Ok(_) => panic!("open should reject version v1"),
        Err(ContractError::OnlyOrderedChannel) => panic!("wrong error kind"),
        Err(ContractError::Std(e)) => {
            assert_eq!(e.msg, "Must set version to `cross-chain-link-v0`");
            assert!(e.msg.contains("cross-chain-link-v0"));
        }
    }
}

#[test]
fn open_rejects_wrong_counterparty_version() {
    let mut store = ChannelStore::new();
    let msg = proposal(ChannelOrder::Ordered, "cross-chain-link-v0", Some("other"));
    match ibc_channel_open(&mut store, &msg) {
        Ok(_) => panic!("open should reject counterparty version `other`"),
        Err(ContractError::OnlyOrderedChannel) => panic!("wrong error kind"),
        Err(ContractError::Std(e)) => {
            assert_eq!(e.msg, "Counterparty version must be `cross-chain-link-v0`");
            assert!(e.msg.contains("Counterparty"));
            assert!(e.msg.contains("cross-chain-link-v0"));
        }
    }
}

#[test]
fn open_leaves_store_unchanged() {
    let mut store = ChannelStore::new();
    let r = ibc_channel_connect(&mut store, &channel("channel-1"));
    assert!(r.is_ok());
    let msg = proposal(ChannelOrder::Unordered, "cross-chain-link-v0", None);
    let r = ibc_channel_open(&mut store, &msg);
    assert!(r.is_err());
    assert!(store.is_connected(&"channel-1".to_owned()));
    assert!(!store.is_connected(&"channel-2".to_owned()));
}

#[test]
fn connect_records_channel() {
    let mut store = ChannelStore::new();
    assert!(!store.is_connected(&"channel-7".to_owned()));
    match ibc_channel_connect(&mut store, &channel("channel-7")) {
        Ok(resp) => {
            assert_eq!(resp.attributes.len(), 2);
            assert_eq!(resp.attributes[0].key, "action");
            assert_eq!(resp.attributes[0].value, "ibc_connect");
            assert_eq!(resp.attributes[1].key, "chain_id");
            assert_eq!(resp.attributes[1].value, "channel-7");
        }
        Err(e) => panic!("connect should succeed: {:?}", e),
    }
    assert!(store.is_connected(&"channel-7".to_owned()));
}

#[test]
fn connect_is_idempotent() {
    let mut store = ChannelStore::new();
    assert!(ibc_channel_connect(&mut store, &channel("channel-7")).is_ok());
    assert!(ibc_channel_connect(&mut store, &channel("channel-7")).is_ok());
    assert!(store.is_connected(&"channel-7".to_owned()));
    assert!(!store.is_connected(&"channel-8".to_owned()));
}

#[test]
fn connect_keeps_earlier_channels() {
    let mut store = ChannelStore::new();
    assert!(ibc_channel_connect(&mut store, &channel("channel-7")).is_ok());
    assert!(ibc_channel_connect(&mut store, &channel("channel-8")).is_ok());
    assert!(store.is_connected(&"channel-7".to_owned()));
    assert!(store.is_connected(&"channel-8".to_owned()));
}

#[test]
fn close_always_fails() {
    let mut store = ChannelStore::new();
    assert!(ibc_channel_connect(&mut store, &channel("channel-7")).is_ok());
    match ibc_channel_close(&mut store, &channel("channel-7")) {
        Ok(_) => panic!("close must be refused"),
        Err(e) => assert_eq!(e.msg, "user cannot close channel"),
    }
    assert!(store.is_connected(&"channel-7".to_owned()));
}

#[test]
fn receive_always_fails() {
    let mut store = ChannelStore::new();
    match ibc_packet_receive(&mut store, &packet()) {
        Ok(_) => panic!("receive must be refused"),
        Err(e) => assert_eq!(
            e.msg,
            "receive should never be called as this contract should never receive packets"
        ),
    }
    assert!(!store.is_connected(&"channel-7".to_owned()));
}

#[test]
fn ack_emits_single_action_attribute() {
    let mut store = ChannelStore::new();
    match ibc_packet_ack(&mut store, &packet()) {
        Ok(resp) => {
            assert_eq!(resp.attributes.len(), 1);
            assert_eq!(resp.attributes[0].key, "action");
            assert_eq!(resp.attributes[0].value, "ibc_packet_ack");
        }
        Err(e) => panic!("ack should succeed: {:?}", e),
    }
}

#[test]
fn timeout_emits_single_action_attribute() {
    let mut store = ChannelStore::new();
    match ibc_packet_timeout(&mut store, &packet()) {
        Ok(resp) => {
            assert_eq!(resp.attributes.len(), 1);
            assert_eq!(resp.attributes[0].key, "action");
            assert_eq!(resp.attributes[0].value, "ibc_packet_timeout");
        }
        Err(e) => panic!("timeout should succeed: {:?}", e),
    }
}
