//! The action-queue continuation engine.
//!
//! An inbound packet carries one or more actions that are executed one at a
//! time and atomically.  [`Handler`] carries the state of that execution: the
//! action being executed, the actions still pending (in submission order) and
//! the results accumulated so far.  Because a state-mutating action would not
//! return its result within the same invocation, the handler is persisted in
//! the [`ContinuationSlot`] between steps; the only supported action kind —
//! the query — executes synchronously, so a batch of queries runs to
//! completion inside a single invocation.
//!
//! Atomicity rests on the hosting platform's transactional guarantee: an
//! invocation that fails discards every storage write it made, so a
//! half-executed batch never leaves results or a stale continuation behind.

use vstd::prelude::*;
use crate::error::ContractError;
use crate::ics999::{
    result_matches_action, Action, ActionResult, ActionResultView, ActionView, Endpoint,
    EndpointView,
};
use crate::querier::{raw_query, HostQuerier};
use crate::response::{attr, spec_dec, u64_to_dec_string, AttributeView, Response};
use crate::state::AccountRegistry;

verus! {

/// The continuation record of one in-flight batch.
#[derive(Debug)]
pub struct Handler {
    /// The chain the packet was sent from (the controller chain).
    pub src: Endpoint,
    /// The current chain (the host chain).
    pub dest: Endpoint,
    /// The account who sent the packet on the controller chain.
    pub controller: String,
    /// The interchain account acting for the controller, if one has been
    /// delegated.
    pub host: Option<String>,
    /// The action being executed at the current step; `None` exactly when
    /// execution has not started or has finished.
    pub action: Option<Action>,
    /// The actions still to execute, in submission order.
    pub pending_actions: Vec<Action>,
    /// One result per action already executed, in submission order.
    pub results: Vec<ActionResult>,
}

/// The mathematical value of a [`Handler`].
pub struct HandlerView {
    pub src: EndpointView,
    pub dest: EndpointView,
    pub controller: Seq<char>,
    pub host: Option<Seq<char>>,
    pub action: Option<ActionView>,
    pub pending_actions: Seq<ActionView>,
    pub results: Seq<ActionResultView>,
}

impl View for Handler {
    type V = HandlerView;

    open spec fn view(&self) -> HandlerView {
        HandlerView {
            src: self.src@,
            dest: self.dest@,
            controller: self.controller@,
            host: match &self.host {
                Some(h) => Some(h@),
                None => None,
            },
            action: match &self.action {
                Some(a) => Some(a@),
                None => None,
            },
            pending_actions: self.pending_actions.deep_view(),
            results: self.results.deep_view(),
        }
    }
}

/// Copies a vector of actions.
fn clone_actions(v: &Vec<Action>) -> (r: Vec<Action>)
    ensures
        r.deep_view() == v.deep_view(),
{
    let r = v.clone();
    proof {
        assert forall|i: int| 0 <= i < v@.len() implies r.deep_view()[i] == v.deep_view()[i] by {
            assert(cloned::<Action>(v@[i], r@[i]));
        }
        assert(r.deep_view() =~= v.deep_view());
    }
    r
}

/// Copies a vector of action results.
fn clone_results(v: &Vec<ActionResult>) -> (r: Vec<ActionResult>)
    ensures
        r.deep_view() == v.deep_view(),
{
    let r = v.clone();
    proof {
        assert forall|i: int| 0 <= i < v@.len() implies r.deep_view()[i] == v.deep_view()[i] by {
            assert(cloned::<ActionResult>(v@[i], r@[i]));
        }
        assert(r.deep_view() =~= v.deep_view());
    }
    r
}

impl Clone for Handler {
    fn clone(&self) -> (res: Self)
        ensures
            res@ == self@,
    {
        Handler {
            src: self.src.clone(),
            dest: self.dest.clone(),
            controller: self.controller.clone(),
            host: match &self.host {
                Some(h) => Some(h.clone()),
                None => None,
            },
            action: match &self.action {
                Some(a) => Some(a.clone()),
                None => None,
            },
            pending_actions: clone_actions(&self.pending_actions),
            results: clone_results(&self.results),
        }
    }
}

/// The single durable storage slot holding the continuation of the batch in
/// flight, if any.  Its default state is empty: the slot is occupied exactly
/// while a batch is mid-execution.
#[derive(Debug)]
pub struct ContinuationSlot {
    stored: Option<Handler>,
}

impl View for ContinuationSlot {
    type V = Option<HandlerView>;

    closed spec fn view(&self) -> Option<HandlerView> {
        match &self.stored {
            Some(h) => Some(h@),
            None => None,
        }
    }
}

impl ContinuationSlot {
    /// An empty slot: no batch is in flight.
    pub fn new() -> (s: ContinuationSlot)
        ensures
            s@ is None,
    {
        ContinuationSlot { stored: None }
    }

    /// Is the slot empty?
    pub fn is_empty(&self) -> (b: bool)
        ensures
            b == (self@ is None),
    {
        match &self.stored {
            Some(_) => false,
            None => true,
        }
    }

    /// Puts a continuation into the slot, which must be vacant: at most one
    /// batch is in flight at a time.
    pub fn store(&mut self, handler: Handler)
        requires
            old(self)@ is None,
        ensures
            final(self)@ == Some(handler@),
    {
        self.stored = Some(handler);
    }
}

/// The attributes of the engine's default response: the method name and how
/// many actions are left to execute.
pub open spec fn default_attrs(h: HandlerView) -> Seq<AttributeView> {
    seq![
        attr("method"@, "handle_next_action"@),
        attr("actions_left"@, spec_dec(h.pending_actions.len() as int)),
    ]
}

/// The attributes the engine starts from: those of the response handed in,
/// or the default response's.
pub open spec fn init_attrs(h: HandlerView, response: Option<Response>) -> Seq<AttributeView> {
    match response {
        Some(r) => r@.attributes,
        None => default_attrs(h),
    }
}

impl Handler {
    /// Starts a continuation for a freshly received batch: the delegated
    /// account is looked up, no action is current, every action is pending
    /// and no result has been recorded.
    pub fn create(
        accounts: &AccountRegistry,
        src: Endpoint,
        dest: Endpoint,
        controller: String,
        actions: Vec<Action>,
    ) -> (h: Handler)
        requires
            accounts.wf(),
        ensures
            h@.src == src@,
            h@.dest == dest@,
            h@.controller == controller@,
            h@.host == if accounts@.contains_key((dest@.channel_id, controller@)) {
                Some(accounts@.index((dest@.channel_id, controller@)))
            } else {
                Option::<Seq<char>>::None
            },
            h@.action is None,
            h@.pending_actions == actions.deep_view(),
            h@.results == Seq::<ActionResultView>::empty(),
    {
        let host = accounts.may_load(&dest.channel_id, &controller);
        let h = Handler {
            src,
            dest,
            controller,
            host,
            action: None,
            pending_actions: actions,
            results: Vec::new(),
        };
        proof {
            assert(h.results.deep_view() =~= Seq::<ActionResultView>::empty());
        }
        h
    }

    /// Loads the continuation of the batch in flight, or fails when none is.
    pub fn load(slot: &ContinuationSlot) -> (r: Result<Handler, ContractError>)
        ensures
            match r {
                Ok(h) => slot@ == Some(h@),
                Err(e) => slot@ is None && e is Std,
            },
    {
        match &slot.stored {
            Some(h) => Ok(h.clone()),
            None => Err(ContractError::Std { msg: "continuation not found".to_owned() }),
        }
    }

    /// Persists this continuation into the slot.
    fn save(&self, slot: &mut ContinuationSlot)
        ensures
            final(slot)@ == Some(self@),
    {
        slot.stored = Some(self.clone());
    }

    /// Erases the continuation: the batch in flight is finished.
    fn remove(slot: &mut ContinuationSlot)
        ensures
            final(slot)@ is None,
    {
        slot.stored = None;
    }

    /// Feeds one query outcome into the accumulator.  A successful response
    /// is recorded, in order, as the result of the action just executed; any
    /// failure — a system error or a non-successful contract result — aborts
    /// the whole batch, recording nothing.
    pub fn record_query_result(&mut self, outcome: Result<Vec<u8>, String>) -> (r: Result<
        (),
        ContractError,
    >)
        ensures
            match outcome {
                Ok(response) => r is Ok && final(self)@ == HandlerView {
                    results: old(self)@.results.push(
                        ActionResultView::Query { response: response@ },
                    ),
                    ..old(self)@
                },
                Err(_) => r matches Err(e) && e is ActionFailed && final(self)@ == old(self)@,
            },
    {
        match outcome {
            Ok(response) => {
                let ghost prior = self.results.deep_view();
                self.results.push(ActionResult::Query { response });
                proof {
                    assert(self.results.deep_view() =~= prior.push(self.results@.last()@));
                }
                Ok(())
            },
            Err(_) => Err(ContractError::ActionFailed),
        }
    }

    /// Executes the remaining actions, strictly in submission order.
    ///
    /// Each pending action is popped into the current slot and executed; a
    /// query's result is recorded and the continuation persisted before the
    /// next action is taken up.  Once no action remains the continuation is
    /// erased and the accumulated results become the response's data — the
    /// batch's successful acknowledgement payload.  Any action failure aborts
    /// the whole batch with [`ContractError::ActionFailed`]: no results are
    /// handed out.
    pub fn handle_next_action(
        self,
        slot: &mut ContinuationSlot,
        querier: &HostQuerier<'_>,
        response: Option<Response>,
    ) -> (r: Result<Response, ContractError>)
        ensures
            match r {
                Ok(resp) => {
                    &&& final(slot)@ is None
                    &&& resp@.data matches Some(results)
                    &&& results.len() == self@.results.len() + self@.pending_actions.len()
                    &&& forall|i: int|
                        0 <= i < self@.results.len() ==> #[trigger] results[i] == self@.results[i]
                    &&& forall|i: int|
                        self@.results.len() <= i < results.len() ==> result_matches_action(
                            #[trigger] results[i],
                            self@.pending_actions[i - self@.results.len()],
                        )
                    &&& resp@.attributes == init_attrs(self@, response) + Seq::new(
                        self@.pending_actions.len(),
                        |i: int| attr("action"@, "query"@),
                    )
                },
                Err(e) => e is ActionFailed,
            },
            self@.pending_actions.len() == 0 ==> r is Ok,
        decreases self.pending_actions@.len(),
    {
        let mut this = self;
        let response = match response {
            Some(r) => r,
            None => this.default_handle_action_response(),
        };
        let ghost entry = this@;
        let ghost init = response@.attributes;

        // grab the first action in the queue; none left means the batch is
        // complete
        if this.pending_actions.len() == 0 {
            this.action = None;
            Handler::remove(slot);
            proof {
                assert(init + Seq::new(0, |i: int| attr("action"@, "query"@)) =~= init);
            }
            return Ok(response.set_data(this.results));
        }

        let action = this.pending_actions.remove(0);
        let outcome = match &action {
            Action::Query(request) => raw_query(querier, request),
        };
        this.action = Some(action);
        match this.record_query_result(outcome) {
            Ok(()) => {},
            Err(e) => {
                return Err(e);
            },
        }
        let response = response.add_attribute("action".to_owned(), "query".to_owned());
        this.save(slot);

        let ghost mid = this@;
        proof {
            assert(mid.pending_actions =~= entry.pending_actions.subrange(
                1,
                entry.pending_actions.len() as int,
            ));
        }
        let r = this.handle_next_action(slot, querier, Some(response));
        proof {
            if let Ok(resp) = &r {
                let results = resp@.data->0;
                assert forall|i: int| 0 <= i < entry.results.len() implies #[trigger] results[i]
                    == entry.results[i] by {
                    assert(results[i] == mid.results[i]);
                }
                assert forall|i: int|
                    entry.results.len() <= i < results.len() implies result_matches_action(
                    #[trigger] results[i],
                    entry.pending_actions[i - entry.results.len()],
                ) by {
                    if i == entry.results.len() {
                        assert(results[i] == mid.results[i]);
                        assert(mid.results[i] == ActionResultView::Query {
                            response: mid.results.last()->Query_response,
                        });
                    } else {
                        assert(result_matches_action(
                            results[i],
                            mid.pending_actions[i - mid.results.len()],
                        ));
                        assert(mid.pending_actions[i - mid.results.len()]
                            == entry.pending_actions[i - entry.results.len()]);
                    }
                }
                assert(resp@.attributes == init.push(attr("action"@, "query"@)) + Seq::new(
                    mid.pending_actions.len(),
                    |i: int| attr("action"@, "query"@),
                ));
                assert(init.push(attr("action"@, "query"@)) + Seq::new(
                    mid.pending_actions.len(),
                    |i: int| attr("action"@, "query"@),
                ) =~= init + Seq::new(
                    entry.pending_actions.len(),
                    |i: int| attr("action"@, "query"@),
                ));
            }
        }
        r
    }

    /// After a state-mutating action's sub-call completes, its response would
    /// be parsed here and fed into the accumulator.  The only supported
    /// action kind, the query, records its result synchronously inside
    /// [`Handler::handle_next_action`], so there is nothing to record and the
    /// continuation is unchanged.
    pub fn after_action(&mut self, _data: Option<Vec<u8>>) -> (r: Result<(), ContractError>)
        ensures
            r is Ok,
            final(self)@ == old(self)@,
    {
        Ok(())
    }

    /// The response the engine starts from when its caller supplies none.
    fn default_handle_action_response(&self) -> (r: Response)
        ensures
            r@.attributes == default_attrs(self@),
            r@.data is None,
    {
        let r = Response::new().add_attribute(
            "method".to_owned(),
            "handle_next_action".to_owned(),
        ).add_attribute(
            "actions_left".to_owned(),
            u64_to_dec_string(self.pending_actions.len() as u64),
        );
        proof {
            assert(r@.attributes =~= default_attrs(self@));
        }
        r
    }
}

/// Executes a freshly received batch against the host environment.
///
/// The batch is rejected before anything else happens when it carries no
/// actions.  Otherwise a continuation is created and driven through every
/// action in submission order; on success the response's data carries exactly
/// one result per action, kinds aligned.  On any failure the continuation is
/// erased and no result is handed out — the hosting platform's transactional
/// rollback, which this models, discards the failed invocation's writes.
///
/// The continuation slot is empty strictly before the first action begins and
/// empty again as soon as the batch has finished, however it finished: no
/// state leaks from one batch into the next.
pub fn handle(
    slot: &mut ContinuationSlot,
    querier: &HostQuerier<'_>,
    accounts: &AccountRegistry,
    src: Endpoint,
    dest: Endpoint,
    controller: String,
    actions: Vec<Action>,
) -> (r: Result<Response, ContractError>)
    requires
        old(slot)@ is None,
        accounts.wf(),
    ensures
        final(slot)@ is None,
        actions@.len() == 0 ==> (r matches Err(e) && e is EmptyBatch),
        (r matches Err(e) && e is EmptyBatch) ==> actions@.len() == 0,
        r matches Ok(resp) ==> {
            &&& actions@.len() > 0
            &&& resp@.data matches Some(results)
            &&& results.len() == actions@.len()
            &&& forall|i: int|
                0 <= i < results.len() ==> result_matches_action(
                    #[trigger] results[i],
                    actions.deep_view()[i],
                )
        },
        r matches Err(e) ==> (e is EmptyBatch || e is ActionFailed),
{
    if actions.len() == 0 {
        return Err(ContractError::EmptyBatch);
    }
    let ghost actions_view = actions.deep_view();
    let handler = Handler::create(accounts, src, dest, controller, actions);
    match handler.handle_next_action(slot, querier, None) {
        Ok(resp) => Ok(resp),
        Err(e) => {
            // the hosting platform discards a failed invocation's storage
            // writes; erasing the slot models that rollback
            Handler::remove(slot);
            Err(e)
        },
    }
}

} // verus!
