//! The sender side: the packet dispatcher and the lifecycle completion
//! notifier.
//!
//! The dispatcher builds exactly one outbound batch for a submitted action
//! list, or fails before anything is sent.  The notifier, fed an inbound
//! acknowledgement or timeout for a previously sent batch, dispatches exactly
//! one callback to the original submitter.

use vstd::prelude::*;
use crate::error::ContractError;
use crate::ics999::{
    Action, Endpoint, PacketAck, PacketAckView, PacketData, PacketDataView, SenderExecuteMsg,
    SenderExecuteMsgView,
};
use crate::querier::{query_port, HostQuerier};
use crate::response::{attr, bool_to_string, spec_bool_text, spec_dec, u64_to_dec_string,
    Attribute, AttributeView};
use crate::router::AFTER_CALLBACK;
use crate::state::ChannelRegistry;

verus! {

/// Instantiating the sender contract configures nothing.
#[derive(Debug)]
pub struct InstantiateMsg {}

/// What the sender contract can be asked to do.
#[derive(Debug)]
pub enum ExecuteMsg {
    /// Send a packet consisting of a series of actions over the channel
    /// bound to a connection.  The deadline is given in nanoseconds since
    /// the epoch; when absent, a default grace window past the current time
    /// is used.
    Act { connection_id: String, actions: Vec<Action>, timeout_nanos: Option<u64> },
}

/// The sender contract answers no queries: there is nothing to ask it.
#[derive(Debug)]
pub struct QueryMsg {}

/// The default grace window granted to a packet whose submitter gave no
/// deadline: thirty seconds, in nanoseconds.
pub const DEFAULT_TIMEOUT_NANOS: u64 = 30_000_000_000;

/// The one network effect of a successful dispatch: a batch payload,
/// addressed to a channel, with its deadline attached.
#[derive(Debug)]
pub struct OutboundPacket {
    /// The local channel the packet leaves through.
    pub channel_id: String,
    /// The batch payload.
    pub data: PacketData,
    /// The deadline, in nanoseconds since the epoch.
    pub timeout_nanos: u64,
}

/// The mathematical value of an [`OutboundPacket`].
pub struct OutboundPacketView {
    pub channel_id: Seq<char>,
    pub data: PacketDataView,
    pub timeout_nanos: u64,
}

impl View for OutboundPacket {
    type V = OutboundPacketView;

    open spec fn view(&self) -> OutboundPacketView {
        OutboundPacketView {
            channel_id: self.channel_id@,
            data: self.data@,
            timeout_nanos: self.timeout_nanos,
        }
    }
}

/// The local endpoint for an outbound transfer: the contract's own port and
/// the channel bound to the requested connection.
fn localhost(
    querier: &HostQuerier<'_>,
    channels: &ChannelRegistry,
    connection_id: &String,
) -> (r: Result<Endpoint, ContractError>)
    requires
        channels.wf(),
    ensures
        r matches Ok(ep) ==> channels@.contains_key(connection_id@) && ep@.channel_id
            == channels@[connection_id@],
        (r matches Err(e) && e is ChannelNotFound) ==> !channels@.contains_key(connection_id@),
        !channels@.contains_key(connection_id@) ==> r is Err,
        r matches Err(e) ==> (e is ChannelNotFound || e is Std),
        match r {
            Err(ContractError::ChannelNotFound { channel_id: c, .. }) => c@ == connection_id@,
            _ => true,
        },
{
    let port_id = match query_port(querier) {
        Ok(p) => p,
        Err(msg) => {
            return Err(ContractError::Std { msg });
        },
    };
    match channels.lookup(connection_id) {
        Some(channel_id) => Ok(Endpoint { port_id, channel_id }),
        None => Err(
            ContractError::ChannelNotFound { port_id, channel_id: connection_id.clone() },
        ),
    }
}

/// The deadline a dispatch uses: the submitter's, or the default grace
/// window past the current time.
pub open spec fn effective_deadline(now_nanos: u64, timeout_nanos: Option<u64>) -> int {
    match timeout_nanos {
        Some(t) => t as int,
        None => now_nanos + DEFAULT_TIMEOUT_NANOS,
    }
}

/// Dispatches a batch of actions over the channel bound to `connection_id`.
///
/// An empty action list is rejected before any network effect.  On success
/// the one outbound packet carries the submitter's identity and the full
/// action list, addressed to the channel the registry binds to the
/// connection, with the deadline attached; no local state is retained.
pub fn act(
    querier: &HostQuerier<'_>,
    channels: &ChannelRegistry,
    now_nanos: u64,
    sender: String,
    connection_id: String,
    actions: Vec<Action>,
    timeout_nanos: Option<u64>,
) -> (r: Result<OutboundPacket, ContractError>)
    requires
        channels.wf(),
        (timeout_nanos is None && actions@.len() > 0) ==> now_nanos + DEFAULT_TIMEOUT_NANOS
            <= u64::MAX,
    ensures
        actions@.len() == 0 ==> (r matches Err(e) && e is EmptyBatch),
        (r matches Err(e) && e is EmptyBatch) ==> actions@.len() == 0,
        r matches Ok(p) ==> {
            &&& actions@.len() > 0
            &&& channels@.contains_key(connection_id@)
            &&& p@.channel_id == channels@[connection_id@]
            &&& p@.data.sender == sender@
            &&& p@.data.actions == actions.deep_view()
            &&& p@.timeout_nanos == effective_deadline(now_nanos, timeout_nanos)
        },
        (r matches Err(e) && e is ChannelNotFound) ==> !channels@.contains_key(connection_id@),
        actions@.len() > 0 && !channels@.contains_key(connection_id@) ==> r is Err,
        r matches Err(e) ==> (e is EmptyBatch || e is ChannelNotFound || e is Std),
        match r {
            Err(ContractError::ChannelNotFound { channel_id: c, .. }) => c@ == connection_id@,
            _ => true,
        },
{
    if actions.len() == 0 {
        return Err(ContractError::EmptyBatch);
    }

    // find the current chain's port and channel
    let local = match localhost(querier, channels, &connection_id) {
        Ok(ep) => ep,
        Err(e) => {
            return Err(e);
        },
    };

    // the default deadline stands in when the submitter gave none
    let timeout_nanos = match timeout_nanos {
        Some(t) => t,
        None => now_nanos + DEFAULT_TIMEOUT_NANOS,
    };

    Ok(
        OutboundPacket {
            channel_id: local.channel_id,
            data: PacketData { sender, actions },
            timeout_nanos,
        },
    )
}

/// Carries out what the sender contract was asked to do: an action batch is
/// dispatched through [`act`], under the same contract, with the submitter's
/// identity taken from the message sender.
pub fn execute(
    querier: &HostQuerier<'_>,
    channels: &ChannelRegistry,
    now_nanos: u64,
    sender: String,
    msg: ExecuteMsg,
) -> (r: Result<OutboundPacket, ContractError>)
    requires
        channels.wf(),
        (msg->Act_timeout_nanos is None && msg->Act_actions@.len() > 0) ==> now_nanos
            + DEFAULT_TIMEOUT_NANOS <= u64::MAX,
    ensures
        msg->Act_actions.deep_view().len() == 0 ==> (r matches Err(e) && e is EmptyBatch),
        (r matches Err(e) && e is EmptyBatch) ==> msg->Act_actions.deep_view().len() == 0,
        r matches Ok(p) ==> {
            &&& msg->Act_actions.deep_view().len() > 0
            &&& channels@.contains_key(msg->Act_connection_id@)
            &&& p@.channel_id == channels@[msg->Act_connection_id@]
            &&& p@.data.sender == sender@
            &&& p@.data.actions == msg->Act_actions.deep_view()
            &&& p@.timeout_nanos == effective_deadline(now_nanos, msg->Act_timeout_nanos)
        },
        r matches Err(e) ==> (e is EmptyBatch || e is ChannelNotFound || e is Std),
        match r {
            Err(ContractError::ChannelNotFound { channel_id: c, .. }) => c@
                == msg->Act_connection_id@,
            _ => true,
        },
{
    match msg {
        ExecuteMsg::Act { connection_id, actions, timeout_nanos } => {
            act(querier, channels, now_nanos, sender, connection_id, actions, timeout_nanos)
        },
    }
}

/// An inbound lifecycle event for a previously sent packet.
#[derive(Debug)]
pub enum LifecycleEvent {
    /// The packet was acknowledged.  Carries the decoded acknowledgement, or
    /// `None` where the acknowledgement bytes could not be decoded.
    Acknowledged(Option<PacketAck>),
    /// The packet timed out: no acknowledgement exists.
    TimedOut,
}

/// The acknowledgement the submitter is shown for an event; meaningful only
/// for events the notifier accepts.
pub open spec fn event_ack(event: LifecycleEvent) -> Option<PacketAckView> {
    match event {
        LifecycleEvent::Acknowledged(Some(ack)) => Some(ack@),
        LifecycleEvent::Acknowledged(None) => None,
        LifecycleEvent::TimedOut => None,
    }
}

/// Did the event carry an acknowledgement?
pub open spec fn event_acknowledged(event: LifecycleEvent) -> bool {
    event is Acknowledged
}

/// The one callback a completed packet lifecycle dispatches to its
/// submitter, delivered in "always reply" mode: a failure inside the
/// recipient must not unwind the completion processing itself.
#[derive(Debug)]
pub struct CallbackRequest {
    /// The submitter's contract.
    pub contract_addr: String,
    /// The callback payload.
    pub msg: SenderExecuteMsg,
    /// The continuation token under which the callback's own reply comes
    /// back for housekeeping.
    pub reply_id: u64,
}

/// The mathematical value of a [`CallbackRequest`].
pub struct CallbackRequestView {
    pub contract_addr: Seq<char>,
    pub msg: SenderExecuteMsgView,
    pub reply_id: u64,
}

impl View for CallbackRequest {
    type V = CallbackRequestView;

    open spec fn view(&self) -> CallbackRequestView {
        CallbackRequestView {
            contract_addr: self.contract_addr@,
            msg: self.msg@,
            reply_id: self.reply_id,
        }
    }
}

/// What completion processing hands back to the host: descriptive
/// attributes and exactly one callback dispatch.
#[derive(Debug)]
pub struct LifecycleResponse {
    pub attributes: Vec<Attribute>,
    pub callback: CallbackRequest,
}

/// The mathematical value of a [`LifecycleResponse`].
pub struct LifecycleResponseView {
    pub attributes: Seq<AttributeView>,
    pub callback: CallbackRequestView,
}

impl View for LifecycleResponse {
    type V = LifecycleResponseView;

    open spec fn view(&self) -> LifecycleResponseView {
        LifecycleResponseView {
            attributes: self.attributes.deep_view(),
            callback: self.callback@,
        }
    }
}

/// The attributes completion processing emits for observability.
pub open spec fn lifecycle_attrs(
    channel_id: Seq<char>,
    sequence: u64,
    acknowledged: bool,
    sender: Seq<char>,
) -> Seq<AttributeView> {
    seq![
        attr("method"@, "packet_lifecycle_complete"@),
        attr("channel_id"@, channel_id),
        attr("sequence"@, spec_dec(sequence as int)),
        attr("acknowledged"@, spec_bool_text(acknowledged)),
        attr("sender"@, sender),
    ]
}

/// Completes the lifecycle of a previously sent packet.
///
/// `packet_data` is the original batch payload recovered from the packet
/// (`None` where it could not be decoded — a fatal protocol violation), and
/// `event` says whether the packet was acknowledged or timed out.  Exactly
/// one callback is dispatched to the submitter, carrying the source channel,
/// the packet sequence and the acknowledgement (absent on timeout); an
/// undecodable payload or acknowledgement dispatches nothing and fails with
/// [`ContractError::MalformedPayload`].
pub fn packet_lifecycle_complete(
    packet_data: Option<PacketData>,
    src_channel_id: String,
    sequence: u64,
    event: LifecycleEvent,
) -> (r: Result<LifecycleResponse, ContractError>)
    ensures
        r is Err <==> (packet_data is None || (event matches LifecycleEvent::Acknowledged(a)
            && a is None)),
        r matches Err(e) ==> e is MalformedPayload,
        r matches Ok(resp) ==> {
            &&& packet_data matches Some(pd)
            &&& resp@.callback.contract_addr == pd@.sender
            &&& resp@.callback.reply_id == AFTER_CALLBACK
            &&& resp@.callback.msg == SenderExecuteMsgView::PacketCallback {
                channel_id: src_channel_id@,
                sequence: sequence,
                ack: event_ack(event),
            }
            &&& resp@.attributes == lifecycle_attrs(
                src_channel_id@,
                sequence,
                event_acknowledged(event),
                pd@.sender,
            )
        },
{
    // recover the original batch payload; losing it is a protocol violation
    let packet_data = match packet_data {
        Some(pd) => pd,
        None => {
            return Err(ContractError::MalformedPayload);
        },
    };

    // recover the acknowledgement: absent on timeout, fatal if undecodable
    let acknowledged = match &event {
        LifecycleEvent::Acknowledged(_) => true,
        LifecycleEvent::TimedOut => false,
    };
    let ack = match event {
        LifecycleEvent::Acknowledged(Some(ack)) => Some(ack),
        LifecycleEvent::Acknowledged(None) => {
            return Err(ContractError::MalformedPayload);
        },
        LifecycleEvent::TimedOut => None,
    };

    let attributes = vec![
        Attribute {
            key: "method".to_owned(),
            value: "packet_lifecycle_complete".to_owned(),
        },
        Attribute { key: "channel_id".to_owned(), value: src_channel_id.clone() },
        Attribute { key: "sequence".to_owned(), value: u64_to_dec_string(sequence) },
        Attribute { key: "acknowledged".to_owned(), value: bool_to_string(acknowledged) },
        Attribute { key: "sender".to_owned(), value: packet_data.sender.clone() },
    ];
    let ghost sender_view = packet_data.sender@;

    let resp = LifecycleResponse {
        attributes,
        callback: CallbackRequest {
            contract_addr: packet_data.sender,
            msg: SenderExecuteMsg::PacketCallback {
                channel_id: src_channel_id,
                sequence,
                ack,
            },
            reply_id: AFTER_CALLBACK,
        },
    };
    proof {
        assert(resp@.attributes =~= lifecycle_attrs(
            resp@.callback.msg->channel_id,
            sequence,
            acknowledged,
            sender_view,
        ));
    }
    Ok(resp)
}

} // verus!
