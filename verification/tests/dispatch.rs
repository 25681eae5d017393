//! Tests of the packet dispatcher, the registries and the channel helpers.

use cosmwasm_std::testing::mock_dependencies;
use cosmwasm_std::{IbcChannel, IbcEndpoint, IbcOrder, QuerierWrapper};

use ics999::controller::{act, DEFAULT_TIMEOUT_NANOS};
use ics999::error::ContractError;
use ics999::ics999::Action;
use ics999::querier::HostQuerier;
use ics999::state::{AccountRegistry, ChannelRegistry};
use ics999::utils::connection_of_channel;

fn ibc_channel(port_id: &str, channel_id: &str, connection_id: &str) -> IbcChannel {
    IbcChannel::new(
        IbcEndpoint { port_id: port_id.to_string(), channel_id: channel_id.to_string() },
        IbcEndpoint {
            port_id: "their-port".to_string(),
            channel_id: "channel-99".to_string(),
        },
        IbcOrder::Unordered,
        "ics999-1",
        connection_id,
    )
}

#[test]
fn scenario_empty_action_list_rejected() {
    let mut deps = mock_dependencies();
    deps.querier.update_ibc("my-port", &[]);
    let querier = HostQuerier { inner: QuerierWrapper::new(&deps.querier) };

    let mut channels = ChannelRegistry::new();
    channels.bind("connection-0".to_string(), "channel-3".to_string());

    // rejected before anything is sent: no packet comes back
    let err = act(
        &querier,
        &channels,
        1_000,
        "alice".to_string(),
        "connection-0".to_string(),
        vec![],
        Some(2_000),
    )
    .unwrap_err();
    assert!(matches!(err, ContractError::EmptyBatch));
}

#[test]
fn act_builds_single_packet_with_default_deadline() {
    let mut deps = mock_dependencies();
    deps.querier.update_ibc("my-port", &[]);
    let querier = HostQuerier { inner: QuerierWrapper::new(&deps.querier) };

    let mut channels = ChannelRegistry::new();
    channels.bind("connection-0".to_string(), "channel-3".to_string());

    let packet = act(
        &querier,
        &channels,
        1_000,
        "alice".to_string(),
        "connection-0".to_string(),
        vec![Action::Query(b"req".to_vec())],
        None,
    )
    .unwrap();

    assert_eq!(packet.channel_id, "channel-3");
    assert_eq!(packet.data.sender, "alice");
    assert_eq!(packet.data.actions.len(), 1);
    assert_eq!(packet.timeout_nanos, 1_000 + DEFAULT_TIMEOUT_NANOS);
}

#[test]
fn act_uses_given_deadline() {
    let mut deps = mock_dependencies();
    deps.querier.update_ibc("my-port", &[]);
    let querier = HostQuerier { inner: QuerierWrapper::new(&deps.querier) };

    let mut channels = ChannelRegistry::new();
    channels.bind("connection-0".to_string(), "channel-3".to_string());

    let packet = act(
        &querier,
        &channels,
        1_000,
        "alice".to_string(),
        "connection-0".to_string(),
        vec![Action::Query(b"req".to_vec())],
        Some(777),
    )
    .unwrap();
    assert_eq!(packet.timeout_nanos, 777);
}

#[test]
fn act_unbound_connection_fails_with_context() {
    let mut deps = mock_dependencies();
    deps.querier.update_ibc("my-port", &[]);
    let querier = HostQuerier { inner: QuerierWrapper::new(&deps.querier) };

    let channels = ChannelRegistry::new();
    let err = act(
        &querier,
        &channels,
        1_000,
        "alice".to_string(),
        "connection-0".to_string(),
        vec![Action::Query(b"req".to_vec())],
        Some(777),
    )
    .unwrap_err();

    match err {
        ContractError::ChannelNotFound { port_id, channel_id } => {
            assert_eq!(port_id, "my-port");
            assert_eq!(channel_id, "connection-0");
        },
        other => panic!("unexpected error: {:?}", other),
    }
}

#[test]
fn channel_registry_bind_and_lookup() {
    let mut channels = ChannelRegistry::new();
    channels.bind("connection-0".to_string(), "channel-3".to_string());
    channels.bind("connection-1".to_string(), "channel-5".to_string());

    assert_eq!(
        channels.lookup(&"connection-0".to_string()).as_deref(),
        Some("channel-3")
    );
    assert_eq!(
        channels.lookup(&"connection-1".to_string()).as_deref(),
        Some("channel-5")
    );
    assert_eq!(channels.lookup(&"connection-2".to_string()), None);
}

#[test]
fn account_registry_bind_and_lookup() {
    let mut accounts = AccountRegistry::new();
    accounts.bind("channel-3".to_string(), "alice".to_string(), "ica-1".to_string());
    accounts.bind("channel-3".to_string(), "bob".to_string(), "ica-2".to_string());
    accounts.bind("channel-4".to_string(), "alice".to_string(), "ica-3".to_string());

    assert_eq!(
        accounts
            .may_load(&"channel-3".to_string(), &"alice".to_string())
            .as_deref(),
        Some("ica-1")
    );
    assert_eq!(
        accounts
            .may_load(&"channel-3".to_string(), &"bob".to_string())
            .as_deref(),
        Some("ica-2")
    );
    assert_eq!(
        accounts
            .may_load(&"channel-4".to_string(), &"alice".to_string())
            .as_deref(),
        Some("ica-3")
    );
    assert_eq!(
        accounts.may_load(&"channel-4".to_string(), &"bob".to_string()),
        None
    );
}

#[test]
fn connection_of_channel_found() {
    let mut deps = mock_dependencies();
    deps.querier.update_ibc(
        "my-port",
        &[ibc_channel("my-port", "channel-3", "connection-0")],
    );
    let querier = HostQuerier { inner: QuerierWrapper::new(&deps.querier) };

    let connection = connection_of_channel(&querier, &"channel-3".to_string()).unwrap();
    assert_eq!(connection, "connection-0");
}

#[test]
fn connection_of_channel_missing() {
    let mut deps = mock_dependencies();
    deps.querier.update_ibc("my-port", &[]);
    let querier = HostQuerier { inner: QuerierWrapper::new(&deps.querier) };

    let err = connection_of_channel(&querier, &"channel-3".to_string()).unwrap_err();
    match err {
        ContractError::ChannelNotFound { port_id, channel_id } => {
            assert_eq!(port_id, "my-port");
            assert_eq!(channel_id, "channel-3");
        },
        other => panic!("unexpected error: {:?}", other),
    }
}

#[test]
fn controller_execute_dispatches_act() {
    let mut deps = mock_dependencies();
    deps.querier.update_ibc("my-port", &[]);
    let querier = HostQuerier { inner: QuerierWrapper::new(&deps.querier) };

    let mut channels = ChannelRegistry::new();
    channels.bind("connection-0".to_string(), "channel-3".to_string());

    let msg = ics999::controller::ExecuteMsg::Act {
        connection_id: "connection-0".to_string(),
        actions: vec![Action::Query(b"req".to_vec())],
        timeout_nanos: Some(555),
    };
    let packet =
        ics999::controller::execute(&querier, &channels, 1_000, "alice".to_string(), msg).unwrap();
    assert_eq!(packet.channel_id, "channel-3");
    assert_eq!(packet.timeout_nanos, 555);
}

#[test]
fn empty_action_list_rejected_without_deadline_headroom() {
    let mut deps = mock_dependencies();
    deps.querier.update_ibc("my-port", &[]);
    let querier = HostQuerier { inner: QuerierWrapper::new(&deps.querier) };

    let mut channels = ChannelRegistry::new();
    channels.bind("connection-0".to_string(), "channel-3".to_string());

    // even at the latest possible time, with no deadline given, the empty
    // list is rejected before any deadline is computed
    let err = act(
        &querier,
        &channels,
        u64::MAX,
        "alice".to_string(),
        "connection-0".to_string(),
        vec![],
        None,
    )
    .unwrap_err();
    assert!(matches!(err, ContractError::EmptyBatch));
}
