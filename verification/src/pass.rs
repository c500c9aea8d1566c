//! One reconciliation pass over a batch of pull requests.
//!
//! The pass itself touches no network. It tells its caller what to do next
//! (look a mirror up, ask for a workflow run, or stop) and is told what came
//! of it. Every pull request is reconciled on its own: whatever comes of one
//! lookup or one dispatch, the pull requests behind it are still served.

use crate::branch::{automated_branch_name, mirror_branch_name};
use crate::dispatch::{
    ci_params_for, dispatch_for, is_canonical, is_canonical_owner, reason_owed, trigger_reason,
    DispatchReason,
};
use crate::mirror::{lookup_of, LookupRequest, MirrorLookup, MirrorLookupRequest, MirrorState};
use crate::model::{
    pull_request_views, DispatchRequest, GutenbergMobileCIParams, GutenbergPR, PullRequest,
};
use vstd::prelude::*;

verus! {

/// What the pass waits for at the pull request under its cursor.
#[derive(Debug, Clone, Copy, PartialEq, Eq)]
pub enum Awaiting {
    /// The outcome of the lookup of its mirror.
    Lookup,
    /// The outcome of the dispatch that is owed for the given reason.
    Dispatch(DispatchReason),
}

/// What the caller reports back to the pass.
#[derive(Debug, Clone, PartialEq, Eq)]
pub enum Event {
    /// The lookup that was asked for ended with this outcome.
    LookupResolved(MirrorLookup),
    /// The dispatch that was asked for was accepted.
    DispatchSucceeded,
    /// The dispatch that was asked for failed.
    DispatchFailed,
}

/// What contracts see of an event.
pub enum EventView {
    LookupResolved(MirrorState),
    DispatchSucceeded,
    DispatchFailed,
}

impl View for Event {
    type V = EventView;

    open spec fn view(&self) -> EventView {
        match self {
            Event::LookupResolved(lookup) => EventView::LookupResolved(lookup@),
            Event::DispatchSucceeded => EventView::DispatchSucceeded,
            Event::DispatchFailed => EventView::DispatchFailed,
        }
    }
}

/// What a dispatch came to, by the status of the answer (`None` where the
/// request went unanswered): it succeeded where the status is one of 200 to
/// 299, and failed otherwise.
pub open spec fn dispatch_event(status: Option<u16>) -> EventView {
    match status {
        Some(code) => if 200 <= code < 300 {
            EventView::DispatchSucceeded
        } else {
            EventView::DispatchFailed
        },
        None => EventView::DispatchFailed,
    }
}

impl Event {
    /// The event to report for a dispatch that was answered with `status`,
    /// or that went unanswered.
    pub fn dispatched(status: Option<u16>) -> (event: Event)
        ensures
            event@ == dispatch_event(status),
    {
        match status {
            Some(code) => if 200 <= code && code < 300 {
                Event::DispatchSucceeded
            } else {
                Event::DispatchFailed
            },
            None => Event::DispatchFailed,
        }
    }
}

/// What the pass asks its caller to do next.
#[derive(Debug, Clone, PartialEq, Eq)]
pub enum Action {
    /// Look up the mirror of the pull request `pr_number`.
    Lookup { pr_number: u64, request: MirrorLookupRequest },
    /// Ask for a workflow run on behalf of the pull request `pr_number`.
    Dispatch { pr_number: u64, reason: DispatchReason, params: GutenbergMobileCIParams },
    /// Nothing is left to do.
    Finished,
}

/// What contracts see of an action.
pub enum ActionView {
    Lookup { pr_number: nat, request: LookupRequest },
    Dispatch { pr_number: nat, reason: DispatchReason, request: DispatchRequest },
    Finished,
}

impl View for Action {
    type V = ActionView;

    open spec fn view(&self) -> ActionView {
        match self {
            Action::Lookup { pr_number, request } => ActionView::Lookup {
                pr_number: *pr_number as nat,
                request: request@,
            },
            Action::Dispatch { pr_number, reason, params } => ActionView::Dispatch {
                pr_number: *pr_number as nat,
                reason: *reason,
                request: params@,
            },
            Action::Finished => ActionView::Finished,
        }
    }
}

/// The state of a pass: the batch, the position of the pull request that is
/// being served (the length of the batch once all are served), and what the
/// pass waits for there.
pub struct PassState {
    pub prs: Seq<PullRequest>,
    pub cursor: nat,
    pub awaiting: Awaiting,
}

/// The position of the first pull request at or behind `from` that the
/// ownership gate lets through; the length of the batch where there is none.
pub open spec fn next_canonical(prs: Seq<PullRequest>, from: nat) -> nat
    decreases prs.len() - from,
{
    if from >= prs.len() {
        prs.len()
    } else if is_canonical(prs[from as int]) {
        from
    } else {
        next_canonical(prs, from + 1)
    }
}

/// The state in which a pass over `prs` begins.
pub open spec fn initial_state(prs: Seq<PullRequest>) -> PassState {
    PassState { prs, cursor: next_canonical(prs, 0), awaiting: Awaiting::Lookup }
}

/// The state in which the pull request under the cursor has been served.
pub open spec fn advanced(state: PassState) -> PassState {
    PassState {
        prs: state.prs,
        cursor: next_canonical(state.prs, state.cursor + 1),
        awaiting: Awaiting::Lookup,
    }
}

/// A state that a pass can be in: the cursor lies within the batch or at its
/// end, and never rests on a pull request that fails the ownership gate.
pub open spec fn well_formed(state: PassState) -> bool {
    &&& state.cursor <= state.prs.len()
    &&& state.cursor < state.prs.len() ==> is_canonical(state.prs[state.cursor as int])
}

/// The lookup to make for `pr`.
pub open spec fn lookup_action(pr: PullRequest) -> ActionView {
    ActionView::Lookup { pr_number: pr.number, request: lookup_of(mirror_branch_name(pr.number)) }
}

/// The dispatch to make for `pr`, owed for `reason`.
pub open spec fn dispatch_action(pr: PullRequest, reason: DispatchReason) -> ActionView {
    ActionView::Dispatch { pr_number: pr.number, reason, request: dispatch_for(pr) }
}

/// What the pass asks for in `state`.
pub open spec fn pending_action(state: PassState) -> ActionView {
    if state.cursor >= state.prs.len() {
        ActionView::Finished
    } else {
        match state.awaiting {
            Awaiting::Lookup => lookup_action(state.prs[state.cursor as int]),
            Awaiting::Dispatch(reason) => dispatch_action(state.prs[state.cursor as int], reason),
        }
    }
}

/// The state that follows `state` on `event`.
///
/// A lookup outcome is taken while a lookup is awaited: the pass then waits
/// for the dispatch if one is owed, and moves on otherwise. A dispatch
/// outcome is taken while a dispatch is awaited, and the pass moves on
/// whether the dispatch succeeded or failed. An event that does not answer
/// what the pass waits for leaves the state as it is.
pub open spec fn next_state(state: PassState, event: EventView) -> PassState {
    if state.cursor >= state.prs.len() {
        state
    } else {
        match (state.awaiting, event) {
            (Awaiting::Lookup, EventView::LookupResolved(mirror)) => match reason_owed(
                state.prs[state.cursor as int],
                mirror,
            ) {
                Some(reason) => PassState {
                    prs: state.prs,
                    cursor: state.cursor,
                    awaiting: Awaiting::Dispatch(reason),
                },
                None => advanced(state),
            },
            (Awaiting::Dispatch(_), EventView::DispatchSucceeded) => advanced(state),
            (Awaiting::Dispatch(_), EventView::DispatchFailed) => advanced(state),
            _ => state,
        }
    }
}

/// The first pull request of the canonical owner lies at or behind the
/// position the search starts from, and within the batch or at its end; no
/// pull request between the two is of the canonical owner.
pub proof fn lemma_next_canonical_bounds(prs: Seq<PullRequest>, from: nat)
    requires
        from <= prs.len(),
    ensures
        from <= next_canonical(prs, from) <= prs.len(),
        next_canonical(prs, from) < prs.len() ==> is_canonical(
            prs[next_canonical(prs, from) as int],
        ),
        forall|i: int| from <= i < next_canonical(prs, from) ==> !is_canonical(#[trigger] prs[i]),
    decreases prs.len() - from,
{
    if from < prs.len() && !is_canonical(prs[from as int]) {
        lemma_next_canonical_bounds(prs, from + 1);
    }
}

/// A pass begins in a well-formed state.
pub proof fn lemma_initial_state_well_formed(prs: Seq<PullRequest>)
    ensures
        well_formed(initial_state(prs)),
{
    lemma_next_canonical_bounds(prs, 0);
}

/// No event leads a pass out of the well-formed states.
pub proof fn lemma_next_state_well_formed(state: PassState, event: EventView)
    requires
        well_formed(state),
    ensures
        well_formed(next_state(state, event)),
{
    if state.cursor < state.prs.len() {
        lemma_next_canonical_bounds(state.prs, state.cursor + 1);
    }
}

/// One reconciliation pass in progress.
pub struct Reconciliation {
    prs: Vec<GutenbergPR>,
    cursor: usize,
    awaiting: Awaiting,
}

impl View for Reconciliation {
    type V = PassState;

    closed spec fn view(&self) -> PassState {
        PassState {
            prs: pull_request_views(self.prs@),
            cursor: self.cursor as nat,
            awaiting: self.awaiting,
        }
    }
}

/// The position of the first pull request at or behind `from` that the
/// ownership gate lets through.
fn seek_canonical(prs: &Vec<GutenbergPR>, from: usize) -> (position: usize)
    requires
        from <= prs.len(),
    ensures
        position == next_canonical(pull_request_views(prs@), from as nat),
{
    let mut position = from;
    while position < prs.len() && !is_canonical_owner(&prs[position])
        invariant
            from <= position <= prs.len(),
            next_canonical(pull_request_views(prs@), position as nat) == next_canonical(
                pull_request_views(prs@),
                from as nat,
            ),
        decreases prs.len() - position,
    {
        position += 1;
    }
    position
}

impl Reconciliation {
    #[verifier::type_invariant]
    spec fn inv(&self) -> bool {
        well_formed(self@)
    }

    /// Begins a pass over `prs`, which are served in the order given.
    pub fn new(prs: Vec<GutenbergPR>) -> (pass: Self)
        ensures
            pass@ == initial_state(pull_request_views(prs@)),
            well_formed(pass@),
    {
        let cursor = seek_canonical(&prs, 0);
        proof {
            lemma_initial_state_well_formed(pull_request_views(prs@));
        }
        Reconciliation { prs, cursor, awaiting: Awaiting::Lookup }
    }

    /// The pull request that is being served, if the pass is not finished.
    pub fn current(&self) -> (pr: Option<&GutenbergPR>)
        ensures
            well_formed(self@),
            match pr {
                Some(served) => self@.cursor < self@.prs.len() && served@ == self@.prs[self@.cursor as int],
                None => self@.cursor >= self@.prs.len(),
            },
    {
        proof {
            use_type_invariant(self);
        }
        if self.cursor < self.prs.len() {
            Some(&self.prs[self.cursor])
        } else {
            None
        }
    }

    /// What the caller is to do next. Asking again changes nothing: the same
    /// action is named until an event answers it.
    pub fn pending(&self) -> (action: Action)
        ensures
            well_formed(self@),
            action@ == pending_action(self@),
    {
        proof {
            use_type_invariant(self);
        }
        if self.cursor >= self.prs.len() {
            Action::Finished
        } else {
            let pr = &self.prs[self.cursor];
            match self.awaiting {
                Awaiting::Lookup => {
                    let branch_name = automated_branch_name(pr.number);
                    Action::Lookup {
                        pr_number: pr.number,
                        request: MirrorLookupRequest::for_branch(branch_name.as_str()),
                    }
                },
                Awaiting::Dispatch(reason) => Action::Dispatch {
                    pr_number: pr.number,
                    reason,
                    params: ci_params_for(pr),
                },
            }
        }
    }

    /// Takes `event` and names what the caller is to do next.
    pub fn step(&mut self, event: &Event) -> (action: Action)
        ensures
            final(self)@ == next_state(old(self)@, event@),
            well_formed(final(self)@),
            action@ == pending_action(final(self)@),
    {
        proof {
            use_type_invariant(&*self);
            lemma_next_state_well_formed(self@, event@);
        }
        if self.cursor < self.prs.len() {
            match (self.awaiting, event) {
                (Awaiting::Lookup, Event::LookupResolved(lookup)) => {
                    match trigger_reason(&self.prs[self.cursor], lookup) {
                        Some(reason) => {
                            self.awaiting = Awaiting::Dispatch(reason);
                        },
                        None => {
                            self.cursor = seek_canonical(&self.prs, self.cursor + 1);
                        },
                    }
                },
                (Awaiting::Dispatch(_), Event::DispatchSucceeded) => {
                    self.cursor = seek_canonical(&self.prs, self.cursor + 1);
                    self.awaiting = Awaiting::Lookup;
                },
                (Awaiting::Dispatch(_), Event::DispatchFailed) => {
                    self.cursor = seek_canonical(&self.prs, self.cursor + 1);
                    self.awaiting = Awaiting::Lookup;
                },
                _ => {},
            }
        }
        self.pending()
    }
}

} // verus!
