//! The wire-level protocol data model: batches, actions, results,
//! acknowledgements and the callback message delivered to the submitter.
//!
//! A batch is one atomic cross-chain unit: an ordered list of actions executed
//! strictly in order on the host chain.  Exactly one result is recorded per
//! successfully executed action, in the same order, and the acknowledgement
//! either carries every result or reports a single batch-level failure.

use vstd::prelude::*;

verus! {

/// One endpoint of an IBC channel: a port and the channel bound on it.
#[derive(Debug)]
pub struct Endpoint {
    pub port_id: String,
    pub channel_id: String,
}

/// The mathematical value of an [`Endpoint`].
pub struct EndpointView {
    pub port_id: Seq<char>,
    pub channel_id: Seq<char>,
}

impl View for Endpoint {
    type V = EndpointView;

    open spec fn view(&self) -> EndpointView {
        EndpointView { port_id: self.port_id@, channel_id: self.channel_id@ }
    }
}

impl DeepView for Endpoint {
    type V = EndpointView;

    open spec fn deep_view(&self) -> EndpointView {
        self.view()
    }
}

impl Clone for Endpoint {
    fn clone(&self) -> (res: Self)
        ensures
            res@ == self@,
    {
        Endpoint { port_id: self.port_id.clone(), channel_id: self.channel_id.clone() }
    }
}

/// One requested unit of work inside a batch.
///
/// The only supported kind is a read-only lookup against the host chain's
/// environment, carried as the raw query request bytes; the shape is designed
/// for extension with state-mutating kinds.
#[derive(Debug)]
pub enum Action {
    /// Perform a query.  The host executes it synchronously; queries never
    /// suspend the batch across invocations.
    Query(Vec<u8>),
}

/// The mathematical value of an [`Action`].
pub enum ActionView {
    Query(Seq<u8>),
}

impl View for Action {
    type V = ActionView;

    open spec fn view(&self) -> ActionView {
        match self {
            Action::Query(request) => ActionView::Query(request@),
        }
    }
}

impl DeepView for Action {
    type V = ActionView;

    open spec fn deep_view(&self) -> ActionView {
        self.view()
    }
}

impl Clone for Action {
    fn clone(&self) -> (res: Self)
        ensures
            res@ == self@,
    {
        match self {
            Action::Query(request) => Action::Query(clone_bytes(request)),
        }
    }
}

/// The outcome recorded for one successfully executed [`Action`], mirroring
/// the action's kind.
#[derive(Debug)]
pub enum ActionResult {
    /// Result of a successful query.  The submitting contract is responsible
    /// for decoding the raw response bytes.
    Query { response: Vec<u8> },
}

/// The mathematical value of an [`ActionResult`].
pub enum ActionResultView {
    Query { response: Seq<u8> },
}

impl View for ActionResult {
    type V = ActionResultView;

    open spec fn view(&self) -> ActionResultView {
        match self {
            ActionResult::Query { response } => ActionResultView::Query { response: response@ },
        }
    }
}

impl DeepView for ActionResult {
    type V = ActionResultView;

    open spec fn deep_view(&self) -> ActionResultView {
        self.view()
    }
}

impl Clone for ActionResult {
    fn clone(&self) -> (res: Self)
        ensures
            res@ == self@,
    {
        match self {
            ActionResult::Query { response } => ActionResult::Query {
                response: clone_bytes(response),
            },
        }
    }
}

/// Does a recorded result mirror the kind of the action it answers?
pub open spec fn result_matches_action(r: ActionResultView, a: ActionView) -> bool {
    match (r, a) {
        (ActionResultView::Query { .. }, ActionView::Query(..)) => true,
    }
}

/// The outbound packet payload: the submitting account and the ordered
/// actions to execute atomically on the host chain.  Immutable once sent.
#[derive(Debug)]
pub struct PacketData {
    /// The account who sends this packet.
    pub sender: String,
    /// The actions to execute, in order.
    pub actions: Vec<Action>,
}

/// The mathematical value of a [`PacketData`].
pub struct PacketDataView {
    pub sender: Seq<char>,
    pub actions: Seq<ActionView>,
}

impl View for PacketData {
    type V = PacketDataView;

    open spec fn view(&self) -> PacketDataView {
        PacketDataView { sender: self.sender@, actions: self.actions.deep_view() }
    }
}

/// The packet acknowledgement: the host chain's final verdict on a batch.
#[derive(Debug)]
pub enum PacketAck {
    /// Every action executed successfully; one result per action, in
    /// submission order.
    Results(Vec<ActionResult>),
    /// One action failed, so the entire batch is considered failed.  Carries
    /// the host's error text.
    Error(String),
}

/// The mathematical value of a [`PacketAck`].
pub enum PacketAckView {
    Results(Seq<ActionResultView>),
    Error(Seq<char>),
}

impl View for PacketAck {
    type V = PacketAckView;

    open spec fn view(&self) -> PacketAckView {
        match self {
            PacketAck::Results(results) => PacketAckView::Results(results.deep_view()),
            PacketAck::Error(msg) => PacketAckView::Error(msg@),
        }
    }
}

/// The message a submitting contract must implement to learn the outcome of a
/// packet it sent, delivered once per completed packet lifecycle.
#[derive(Debug)]
pub enum SenderExecuteMsg {
    /// Called after the packet's lifecycle completed: acknowledged or timed
    /// out.
    PacketCallback {
        channel_id: String,
        sequence: u64,
        /// The acknowledgement, or `None` if the packet timed out.
        ack: Option<PacketAck>,
    },
}

/// The mathematical value of a [`SenderExecuteMsg`].
pub enum SenderExecuteMsgView {
    PacketCallback { channel_id: Seq<char>, sequence: u64, ack: Option<PacketAckView> },
}

impl View for SenderExecuteMsg {
    type V = SenderExecuteMsgView;

    open spec fn view(&self) -> SenderExecuteMsgView {
        match self {
            SenderExecuteMsg::PacketCallback { channel_id, sequence, ack } => {
                SenderExecuteMsgView::PacketCallback {
                    channel_id: channel_id@,
                    sequence: *sequence,
                    ack: match ack {
                        Some(a) => Some(a@),
                        None => None,
                    },
                }
            },
        }
    }
}

/// Copies a byte vector.
pub fn clone_bytes(bytes: &Vec<u8>) -> (res: Vec<u8>)
    ensures
        res@ == bytes@,
{
    let res = bytes.clone();
    proof {
        assert(res@ =~= bytes@);
    }
    res
}

} // verus!
