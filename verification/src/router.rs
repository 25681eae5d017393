//! The reply router.
//!
//! A resumed invocation carries an opaque continuation token saying which
//! suspended step it continues.  The router maps each token to the step to
//! take; a token outside the protocol is a fatal configuration error.

use vstd::prelude::*;
use crate::error::ContractError;

verus! {

/// Continuation token: resume by advancing the action queue one step.
pub const AFTER_ACTION: u64 = 1111;

/// Continuation token: resume by finalizing the completed batch.
pub const AFTER_ALL_ACTIONS: u64 = 2222;

/// Continuation token: resume for housekeeping after the submitter callback
/// was delivered (or failed — the callback is best-effort).
pub const AFTER_CALLBACK: u64 = 3333;

/// The step a resumed invocation continues with.
#[derive(PartialEq, Eq, Structural, Debug)]
pub enum ReplyStep {
    /// Advance the action queue by one action.
    AfterAction,
    /// Finalize the batch: every action has executed.
    AfterAllActions,
    /// Post-callback housekeeping for the completion notifier.
    AfterCallback,
}

/// Maps a continuation token to the step it stands for; every token outside
/// the protocol's fixed set is rejected.
pub fn route_reply(id: u64) -> (r: Result<ReplyStep, ContractError>)
    ensures
        id == AFTER_ACTION ==> r == Ok::<ReplyStep, ContractError>(ReplyStep::AfterAction),
        id == AFTER_ALL_ACTIONS ==> r == Ok::<ReplyStep, ContractError>(ReplyStep::AfterAllActions),
        id == AFTER_CALLBACK ==> r == Ok::<ReplyStep, ContractError>(ReplyStep::AfterCallback),
        id != AFTER_ACTION && id != AFTER_ALL_ACTIONS && id != AFTER_CALLBACK ==> (
        r matches Err(e) && e matches ContractError::UnknownReplyId { id: bad } && bad == id),
{
    if id == AFTER_ACTION {
        Ok(ReplyStep::AfterAction)
    } else if id == AFTER_ALL_ACTIONS {
        Ok(ReplyStep::AfterAllActions)
    } else if id == AFTER_CALLBACK {
        Ok(ReplyStep::AfterCallback)
    } else {
        Err(ContractError::UnknownReplyId { id })
    }
}

} // verus!
