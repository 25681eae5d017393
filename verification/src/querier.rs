//! The crate's window onto the host chain's querier.
//!
//! Everything a batch reads from the host environment flows through the
//! trusted declarations below.  A query's outcome depends on the chain's
//! state, so none of them promises anything about the value that comes back:
//! the verified callers state what holds of every outcome.

use vstd::prelude::*;
use cosmwasm_std::{Empty, QuerierWrapper};

verus! {

/// The handle a contract queries the host chain through.
///
/// It carries a `cosmwasm_std::QuerierWrapper`, opaque to the verifier
/// (`QuerierWrapper`'s generics cannot be declared here because of its
/// `CustomQuery` bound); the caller that holds one builds it directly from
/// the wrapper the host handed it.
#[verifier::external_body]
pub struct HostQuerier<'a> {
    /// The wrapped querier handle.
    pub inner: QuerierWrapper<'a, Empty>,
}

/// Relies on `cosmwasm_std::Querier::raw_query`, reached through
/// `QuerierWrapper`: forwards the raw request bytes to the host chain's
/// querier, and flattens the two failure levels (system error, contract
/// error) into their error text.
#[verifier::external_body]
pub(crate) fn raw_query<'a>(querier: &HostQuerier<'a>, request: &Vec<u8>) -> (r: Result<
    Vec<u8>,
    String,
>) {
    match querier.inner.raw_query(request.as_slice()) {
        cosmwasm_std::SystemResult::Ok(cosmwasm_std::ContractResult::Ok(bin)) => Ok(bin.to_vec()),
        cosmwasm_std::SystemResult::Ok(cosmwasm_std::ContractResult::Err(err)) => Err(err),
        cosmwasm_std::SystemResult::Err(err) => Err(err.to_string()),
    }
}

/// Relies on `cosmwasm_std::QuerierWrapper::query` with
/// `IbcQuery::PortId`: asks the host which IBC port this contract is bound
/// to.
#[verifier::external_body]
pub fn query_port<'a>(querier: &HostQuerier<'a>) -> (r: Result<String, String>) {
    querier.inner.query::<cosmwasm_std::PortIdResponse>(
        &cosmwasm_std::QueryRequest::Ibc(cosmwasm_std::IbcQuery::PortId {}),
    ).map(|res| res.port_id).map_err(|e| e.to_string())
}

/// Relies on `cosmwasm_std::QuerierWrapper::query` with
/// `IbcQuery::Channel`: looks the channel up on the contract's own port and
/// hands back the connection it sits on, or `None` where no such channel
/// exists.
#[verifier::external_body]
pub(crate) fn query_channel_connection<'a>(
    querier: &HostQuerier<'a>,
    channel_id: &String,
) -> (r: Result<Option<String>, String>) {
    querier.inner.query::<cosmwasm_std::ChannelResponse>(
        &cosmwasm_std::QueryRequest::Ibc(
            cosmwasm_std::IbcQuery::Channel { channel_id: channel_id.clone(), port_id: None },
        ),
    ).map(|res| res.channel.map(|c| c.connection_id)).map_err(|e| e.to_string())
}

} // verus!
