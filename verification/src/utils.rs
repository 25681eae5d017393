//! Host-side helpers over the chain's IBC metadata.

use vstd::prelude::*;
use crate::error::ContractError;
use crate::querier::{query_channel_connection, query_port, HostQuerier};

verus! {

/// The connection a channel on the contract's own port sits on.
///
/// The chain decides whether the channel exists, so success cannot be owed;
/// a channel the chain does not know yields [`ContractError::ChannelNotFound`]
/// carrying the contract's port and the channel asked about, and a failing
/// metadata query is carried through as [`ContractError::Std`].
pub fn connection_of_channel(querier: &HostQuerier<'_>, channel_id: &String) -> (r: Result<
    String,
    ContractError,
>)
    ensures
        r matches Err(e) ==> (e is ChannelNotFound || e is Std),
        match r {
            Err(ContractError::ChannelNotFound { channel_id: c, .. }) => c@ == channel_id@,
            _ => true,
        },
{
    let found = match query_channel_connection(querier, channel_id) {
        Ok(f) => f,
        Err(msg) => {
            return Err(ContractError::Std { msg });
        },
    };
    match found {
        Some(connection_id) => Ok(connection_id),
        None => {
            let port_id = match query_port(querier) {
                Ok(p) => p,
                Err(msg) => {
                    return Err(ContractError::Std { msg });
                },
            };
            Err(ContractError::ChannelNotFound { port_id, channel_id: channel_id.clone() })
        },
    }
}

} // verus!
