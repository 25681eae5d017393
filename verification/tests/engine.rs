//! Tests of the action-queue continuation engine, driven against the mock
//! host querier.

use cosmwasm_std::testing::mock_dependencies;
use cosmwasm_std::{
    coin, from_json, to_json_vec, AllBalanceResponse, BalanceResponse, BankQuery, Empty,
    QuerierWrapper, QueryRequest,
};

use ics999::error::ContractError;
use ics999::handler::{handle, ContinuationSlot, Handler};
use ics999::ics999::{Action, ActionResult, Endpoint};
use ics999::querier::HostQuerier;
use ics999::state::AccountRegistry;

fn endpoint(port_id: &str, channel_id: &str) -> Endpoint {
    Endpoint { port_id: port_id.to_string(), channel_id: channel_id.to_string() }
}

fn all_balances_request(address: &str) -> Vec<u8> {
    to_json_vec(&QueryRequest::<Empty>::Bank(BankQuery::AllBalances {
        address: address.to_string(),
    }))
    .unwrap()
}

fn balance_request(address: &str, denom: &str) -> Vec<u8> {
    to_json_vec(&QueryRequest::<Empty>::Bank(BankQuery::Balance {
        address: address.to_string(),
        denom: denom.to_string(),
    }))
    .unwrap()
}

#[test]
fn scenario_single_query_success() {
    let mut deps = mock_dependencies();
    deps.querier.update_balance("alice", vec![coin(123, "utoken")]);
    let querier = HostQuerier { inner: QuerierWrapper::new(&deps.querier) };

    let mut slot = ContinuationSlot::new();
    assert!(slot.is_empty());

    let actions = vec![Action::Query(all_balances_request("alice"))];
    let res = handle(
        &mut slot,
        &querier,
        &AccountRegistry::new(),
        endpoint("their-port", "channel-7"),
        endpoint("my-port", "channel-3"),
        "alice".to_string(),
        actions,
    )
    .unwrap();

    // exactly one result, of the query kind, carrying the real response
    let results = res.data.expect("a finished batch carries its results");
    assert_eq!(results.len(), 1);
    let ActionResult::Query { response } = &results[0];
    let decoded: AllBalanceResponse = from_json(response).unwrap();
    assert_eq!(decoded.amount, vec![coin(123, "utoken")]);

    // the continuation slot ends empty
    assert!(slot.is_empty());
}

#[test]
fn query_results_preserve_submission_order() {
    let mut deps = mock_dependencies();
    deps.querier.update_balance("alice", vec![coin(5, "utoken")]);
    deps.querier.update_balance("bob", vec![coin(9, "ustone")]);
    let querier = HostQuerier { inner: QuerierWrapper::new(&deps.querier) };

    let mut slot = ContinuationSlot::new();
    let actions = vec![
        Action::Query(all_balances_request("alice")),
        Action::Query(balance_request("bob", "ustone")),
    ];
    let res = handle(
        &mut slot,
        &querier,
        &AccountRegistry::new(),
        endpoint("their-port", "channel-7"),
        endpoint("my-port", "channel-3"),
        "alice".to_string(),
        actions,
    )
    .unwrap();

    let results = res.data.unwrap();
    assert_eq!(results.len(), 2);
    let ActionResult::Query { response } = &results[0];
    let first: AllBalanceResponse = from_json(response).unwrap();
    assert_eq!(first.amount, vec![coin(5, "utoken")]);
    let ActionResult::Query { response } = &results[1];
    let second: BalanceResponse = from_json(response).unwrap();
    assert_eq!(second.amount, coin(9, "ustone"));
    assert!(slot.is_empty());
}

#[test]
fn scenario_failing_action_aborts_batch() {
    let mut deps = mock_dependencies();
    deps.querier.update_balance("alice", vec![coin(123, "utoken")]);
    let querier = HostQuerier { inner: QuerierWrapper::new(&deps.querier) };

    let mut slot = ContinuationSlot::new();
    // the second request is garbage the querier cannot parse: it fails, and
    // the whole batch aborts with no results at all
    let actions = vec![
        Action::Query(all_balances_request("alice")),
        Action::Query(b"not a query".to_vec()),
    ];
    let err = handle(
        &mut slot,
        &querier,
        &AccountRegistry::new(),
        endpoint("their-port", "channel-7"),
        endpoint("my-port", "channel-3"),
        "alice".to_string(),
        actions,
    )
    .unwrap_err();

    assert!(matches!(err, ContractError::ActionFailed));
    // no stale continuation survives the failure
    assert!(slot.is_empty());
}

#[test]
fn empty_batch_rejected_by_engine() {
    let deps = mock_dependencies();
    let querier = HostQuerier { inner: QuerierWrapper::new(&deps.querier) };

    let mut slot = ContinuationSlot::new();
    let err = handle(
        &mut slot,
        &querier,
        &AccountRegistry::new(),
        endpoint("their-port", "channel-7"),
        endpoint("my-port", "channel-3"),
        "alice".to_string(),
        vec![],
    )
    .unwrap_err();

    assert!(matches!(err, ContractError::EmptyBatch));
    assert!(slot.is_empty());
}

#[test]
fn engine_attributes_describe_batch() {
    let mut deps = mock_dependencies();
    deps.querier.update_balance("alice", vec![coin(1, "utoken")]);
    let querier = HostQuerier { inner: QuerierWrapper::new(&deps.querier) };

    let mut slot = ContinuationSlot::new();
    let actions = vec![
        Action::Query(all_balances_request("alice")),
        Action::Query(all_balances_request("alice")),
    ];
    let res = handle(
        &mut slot,
        &querier,
        &AccountRegistry::new(),
        endpoint("their-port", "channel-7"),
        endpoint("my-port", "channel-3"),
        "alice".to_string(),
        actions,
    )
    .unwrap();

    let kv: Vec<(String, String)> = res
        .attributes
        .iter()
        .map(|a| (a.key.clone(), a.value.clone()))
        .collect();
    assert_eq!(
        kv,
        vec![
            ("method".to_string(), "handle_next_action".to_string()),
            ("actions_left".to_string(), "2".to_string()),
            ("action".to_string(), "query".to_string()),
            ("action".to_string(), "query".to_string()),
        ]
    );
}

#[test]
fn handler_create_starts_fresh() {
    let mut accounts = AccountRegistry::new();
    accounts.bind(
        "channel-3".to_string(),
        "alice".to_string(),
        "ica-address".to_string(),
    );

    let handler = Handler::create(
        &accounts,
        endpoint("their-port", "channel-7"),
        endpoint("my-port", "channel-3"),
        "alice".to_string(),
        vec![Action::Query(b"req".to_vec())],
    );

    assert_eq!(handler.host.as_deref(), Some("ica-address"));
    assert!(handler.action.is_none());
    assert_eq!(handler.pending_actions.len(), 1);
    assert!(handler.results.is_empty());
    assert_eq!(handler.controller, "alice");

    // an unknown (channel, controller) pair has no delegated account
    let other = Handler::create(
        &accounts,
        endpoint("their-port", "channel-7"),
        endpoint("my-port", "channel-3"),
        "mallory".to_string(),
        vec![],
    );
    assert!(other.host.is_none());
}

#[test]
fn handler_load_fails_on_empty_slot() {
    let slot = ContinuationSlot::new();
    let err = Handler::load(&slot).unwrap_err();
    assert!(matches!(err, ContractError::Std { .. }));
}

#[test]
fn after_action_keeps_state() {
    let accounts = AccountRegistry::new();
    let mut handler = Handler::create(
        &accounts,
        endpoint("their-port", "channel-7"),
        endpoint("my-port", "channel-3"),
        "alice".to_string(),
        vec![Action::Query(b"req".to_vec())],
    );
    handler.after_action(Some(b"data".to_vec())).unwrap();
    assert_eq!(handler.pending_actions.len(), 1);
    assert!(handler.results.is_empty());
}

#[test]
fn record_query_result_accumulates_and_aborts() {
    let accounts = AccountRegistry::new();
    let mut handler = Handler::create(
        &accounts,
        endpoint("their-port", "channel-7"),
        endpoint("my-port", "channel-3"),
        "alice".to_string(),
        vec![],
    );

    handler.record_query_result(Ok(b"answer".to_vec())).unwrap();
    assert_eq!(handler.results.len(), 1);
    let ActionResult::Query { response } = &handler.results[0];
    assert_eq!(response, b"answer");

    let err = handler
        .record_query_result(Err("boom".to_string()))
        .unwrap_err();
    assert!(matches!(err, ContractError::ActionFailed));
    // a failure records nothing
    assert_eq!(handler.results.len(), 1);
}

#[test]
fn host_execute_dispatches_handle() {
    let mut deps = mock_dependencies();
    deps.querier.update_balance("alice", vec![coin(8, "utoken")]);
    let querier = HostQuerier { inner: QuerierWrapper::new(&deps.querier) };

    let mut slot = ContinuationSlot::new();
    let msg = ics999::host::ExecuteMsg::Handle {
        src: endpoint("their-port", "channel-7"),
        dest: endpoint("my-port", "channel-3"),
        controller: "alice".to_string(),
        actions: vec![Action::Query(all_balances_request("alice"))],
    };
    let res = ics999::host::execute(&mut slot, &querier, &AccountRegistry::new(), msg).unwrap();
    assert_eq!(res.data.unwrap().len(), 1);
    assert!(slot.is_empty());
}

#[test]
fn continuation_slot_store_and_load_roundtrip() {
    let accounts = AccountRegistry::new();
    let handler = Handler::create(
        &accounts,
        endpoint("their-port", "channel-7"),
        endpoint("my-port", "channel-3"),
        "alice".to_string(),
        vec![Action::Query(b"req".to_vec())],
    );

    let mut slot = ContinuationSlot::new();
    slot.store(handler);
    assert!(!slot.is_empty());

    let loaded = Handler::load(&slot).unwrap();
    assert_eq!(loaded.controller, "alice");
    assert_eq!(loaded.pending_actions.len(), 1);
    assert!(loaded.results.is_empty());
}

#[test]
fn handle_next_action_drains_the_queue() {
    let mut deps = mock_dependencies();
    deps.querier.update_balance("alice", vec![coin(4, "utoken")]);
    let querier = HostQuerier { inner: QuerierWrapper::new(&deps.querier) };

    let handler = Handler::create(
        &AccountRegistry::new(),
        endpoint("their-port", "channel-7"),
        endpoint("my-port", "channel-3"),
        "alice".to_string(),
        vec![Action::Query(all_balances_request("alice"))],
    );

    let mut slot = ContinuationSlot::new();
    let res = handler.handle_next_action(&mut slot, &querier, None).unwrap();
    assert_eq!(res.data.unwrap().len(), 1);
    assert!(slot.is_empty());
}
