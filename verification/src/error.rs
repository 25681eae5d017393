//! The error taxonomy of the protocol.
//!
//! Every failure in this crate is fatal for the batch or packet being
//! processed: there are no retries anywhere, and redelivery is solely the
//! transport layer's concern.

use vstd::prelude::*;

verus! {

/// All the ways processing a batch or a packet lifecycle event can fail.
#[derive(Debug)]
pub enum ContractError {
    /// No channel is bound to the requested connection (fatal, detected
    /// before anything is sent).  Carries the local port and the identifier
    /// that could not be resolved, so the caller can diagnose the failure.
    ChannelNotFound { port_id: String, channel_id: String },
    /// A batch with zero actions was submitted (fatal, detected before any
    /// network effect).
    EmptyBatch,
    /// An action failed to execute on the host chain.  The entire batch is
    /// abandoned: none of its results are kept.
    ActionFailed,
    /// A packet or acknowledgement payload could not be decoded.
    MalformedPayload,
    /// Reserved for submitter validation, which is not yet enforced.
    Unauthorized,
    /// An error reported by the host environment, carried as text.
    Std { msg: String },
    /// A resumed invocation carried a continuation token that is not part of
    /// the protocol: a fatal configuration error.
    UnknownReplyId { id: u64 },
}

} // verus!
