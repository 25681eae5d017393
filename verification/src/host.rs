//! The host-side contract's message surface.
//!
//! The host contract receives batches relayed from the controller chain and
//! executes them through the action-queue engine; it also answers one
//! demonstration query with a fixed number.

use vstd::prelude::*;
use crate::error::ContractError;
use crate::handler::{handle, ContinuationSlot};
use crate::ics999::{result_matches_action, Action, Endpoint};
use crate::querier::HostQuerier;
use crate::response::Response;
use crate::state::AccountRegistry;

verus! {

/// Instantiating the host contract configures nothing.
#[derive(Debug)]
pub struct InstantiateMsg {}

/// What the host contract can be asked to do.
#[derive(Debug)]
pub enum ExecuteMsg {
    /// Execute a relayed batch: the packet's endpoints, the controller who
    /// sent it, and the actions to run in order.
    Handle { src: Endpoint, dest: Endpoint, controller: String, actions: Vec<Action> },
}

/// What the host contract can be asked.
#[derive(Debug)]
pub enum QueryMsg {
    /// Ask for the demonstration number.
    QueryRandomNum {},
}

/// The answer to [`QueryMsg::QueryRandomNum`].
#[derive(Debug)]
pub struct QueryRandomNumResponse {
    pub result: u64,
}

/// Carries out what the host contract was asked to do: a relayed batch is
/// executed through [`handle`], under the same contract.
pub fn execute(
    slot: &mut ContinuationSlot,
    querier: &HostQuerier<'_>,
    accounts: &AccountRegistry,
    msg: ExecuteMsg,
) -> (r: Result<Response, ContractError>)
    requires
        old(slot)@ is None,
        accounts.wf(),
    ensures
        final(slot)@ is None,
        msg->Handle_actions.deep_view().len() == 0 ==> (r matches Err(e) && e is EmptyBatch),
        (r matches Err(e) && e is EmptyBatch) ==> msg->Handle_actions.deep_view().len() == 0,
        r matches Ok(resp) ==> {
            &&& resp@.data matches Some(results)
            &&& results.len() == msg->Handle_actions.deep_view().len()
            &&& forall|i: int|
                0 <= i < results.len() ==> result_matches_action(
                    #[trigger] results[i],
                    msg->Handle_actions.deep_view()[i],
                )
        },
        r matches Err(e) ==> (e is EmptyBatch || e is ActionFailed),
{
    match msg {
        ExecuteMsg::Handle { src, dest, controller, actions } => {
            handle(slot, querier, accounts, src, dest, controller, actions)
        },
    }
}

/// Answers the demonstration query; the answer is the fixed number 2356.
pub fn return_random_num() -> (r: QueryRandomNumResponse)
    ensures
        r.result == 2356,
{
    QueryRandomNumResponse { result: 2356 }
}

} // verus!
