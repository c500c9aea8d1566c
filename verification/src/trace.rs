//! What a pass does from its first action to its last, and what that says of
//! every pull request in the batch.

use crate::branch::mirror_branch_name;
use crate::dispatch::{dispatch_for, is_canonical, reason_owed, DispatchReason, TARGET_REF};
use crate::mirror::MirrorState;
use crate::model::{DispatchRequest, PullRequest};
use crate::pass::{
    advanced, dispatch_action, initial_state, lemma_next_canonical_bounds, lookup_action,
    next_canonical, next_state, pending_action, ActionView, Awaiting, EventView, PassState,
};
use vstd::prelude::*;

verus! {

/// The event with which the world answers what the pass asks for in `state`,
/// where `lookups` gives the outcome of the lookup for the pull request at
/// each position and `dispatched` tells whether the dispatch for it succeeds.
pub open spec fn answer(
    state: PassState,
    lookups: spec_fn(nat) -> MirrorState,
    dispatched: spec_fn(nat) -> bool,
) -> EventView {
    match state.awaiting {
        Awaiting::Lookup => EventView::LookupResolved(lookups(state.cursor)),
        Awaiting::Dispatch(_) => if dispatched(state.cursor) {
            EventView::DispatchSucceeded
        } else {
            EventView::DispatchFailed
        },
    }
}

/// How far a pass in `state` is from its end, at most.
pub open spec fn steps_left(state: PassState) -> nat {
    if state.cursor >= state.prs.len() {
        0
    } else if state.awaiting is Lookup {
        (2 * (state.prs.len() - state.cursor)) as nat
    } else {
        (2 * (state.prs.len() - state.cursor) - 1) as nat
    }
}

/// The actions that a pass asks for from `state` on, in order, when each is
/// answered as `lookups` and `dispatched` say. The closing `Finished` is
/// left out.
pub open spec fn run(
    state: PassState,
    lookups: spec_fn(nat) -> MirrorState,
    dispatched: spec_fn(nat) -> bool,
) -> Seq<ActionView>
    decreases steps_left(state),
    via run_terminates
{
    if state.cursor >= state.prs.len() {
        Seq::empty()
    } else {
        seq![pending_action(state)] + run(
            next_state(state, answer(state, lookups, dispatched)),
            lookups,
            dispatched,
        )
    }
}

#[via_fn]
proof fn run_terminates(
    state: PassState,
    lookups: spec_fn(nat) -> MirrorState,
    dispatched: spec_fn(nat) -> bool,
) {
    if state.cursor < state.prs.len() {
        lemma_next_canonical_bounds(state.prs, state.cursor + 1);
    }
}

/// What is asked for on behalf of one pull request whose lookup, if one is
/// made, ends in `mirror`: nothing where the ownership gate is shut; else
/// the lookup, followed by the dispatch where a run is owed.
pub open spec fn actions_for(pr: PullRequest, mirror: MirrorState) -> Seq<ActionView> {
    if !is_canonical(pr) {
        Seq::empty()
    } else {
        match reason_owed(pr, mirror) {
            Some(reason) => seq![lookup_action(pr), dispatch_action(pr, reason)],
            None => seq![lookup_action(pr)],
        }
    }
}

/// What is asked for on behalf of the pull requests at and behind `from`,
/// one after the other.
pub open spec fn actions_from(
    prs: Seq<PullRequest>,
    lookups: spec_fn(nat) -> MirrorState,
    from: nat,
) -> Seq<ActionView>
    decreases prs.len() - from,
{
    if from >= prs.len() {
        Seq::empty()
    } else {
        actions_for(prs[from as int], lookups(from)) + actions_from(prs, lookups, from + 1)
    }
}

proof fn lemma_run_serves_the_rest(
    prs: Seq<PullRequest>,
    from: nat,
    lookups: spec_fn(nat) -> MirrorState,
    dispatched: spec_fn(nat) -> bool,
)
    requires
        from <= prs.len(),
    ensures
        run(
            PassState { prs, cursor: next_canonical(prs, from), awaiting: Awaiting::Lookup },
            lookups,
            dispatched,
        ) == actions_from(prs, lookups, from),
    decreases prs.len() - from,
{
    let state = PassState { prs, cursor: next_canonical(prs, from), awaiting: Awaiting::Lookup };
    if from >= prs.len() {
    } else if !is_canonical(prs[from as int]) {
        lemma_run_serves_the_rest(prs, from + 1, lookups, dispatched);
        assert(actions_from(prs, lookups, from) =~= actions_from(prs, lookups, from + 1));
    } else {
        let pr = prs[from as int];
        let rest = PassState {
            prs,
            cursor: next_canonical(prs, from + 1),
            awaiting: Awaiting::Lookup,
        };
        lemma_run_serves_the_rest(prs, from + 1, lookups, dispatched);
        assert(state.cursor == from);
        assert(answer(state, lookups, dispatched) == EventView::LookupResolved(lookups(from)));
        match reason_owed(pr, lookups(from)) {
            Some(reason) => {
                let waiting = PassState { prs, cursor: from, awaiting: Awaiting::Dispatch(reason) };
                assert(next_state(state, answer(state, lookups, dispatched)) == waiting);
                assert(next_state(waiting, answer(waiting, lookups, dispatched)) == rest);
                assert(run(waiting, lookups, dispatched) == seq![dispatch_action(pr, reason)] + run(
                    rest,
                    lookups,
                    dispatched,
                ));
                assert(run(state, lookups, dispatched) =~= actions_for(pr, lookups(from))
                    + actions_from(prs, lookups, from + 1));
            },
            None => {
                assert(next_state(state, answer(state, lookups, dispatched)) == rest);
                assert(run(state, lookups, dispatched) =~= actions_for(pr, lookups(from))
                    + actions_from(prs, lookups, from + 1));
            },
        }
    }
}

/// A pass serves every pull request of its batch on its own, in order.
///
/// Whatever the lookups bring and whether or not the dispatches succeed, the
/// actions of a whole pass are those owed to its first pull request, then
/// those owed to its second, and so on to the last: no outcome for one pull
/// request takes anything from, or adds anything to, what is done for
/// another, and a failed dispatch ends nothing.
pub proof fn lemma_pass_serves_every_pull_request(
    prs: Seq<PullRequest>,
    lookups: spec_fn(nat) -> MirrorState,
    dispatched: spec_fn(nat) -> bool,
)
    ensures
        run(initial_state(prs), lookups, dispatched) == actions_from(prs, lookups, 0),
{
    lemma_run_serves_the_rest(prs, 0, lookups, dispatched);
}

proof fn lemma_actions_from_bounds(
    prs: Seq<PullRequest>,
    lookups: spec_fn(nat) -> MirrorState,
    from: nat,
)
    requires
        from <= prs.len(),
    ensures
        actions_from(prs, lookups, from).len() <= 2 * (prs.len() - from),
        (forall|i: nat|
            from <= i < prs.len() ==> reason_owed(prs[i as int], #[trigger] lookups(i)) is None)
            ==> forall|k: int|
            0 <= k < actions_from(prs, lookups, from).len() ==> !(#[trigger] actions_from(
                prs,
                lookups,
                from,
            )[k] is Dispatch),
    decreases prs.len() - from,
{
    if from < prs.len() {
        lemma_actions_from_bounds(prs, lookups, from + 1);
        if forall|i: nat|
            from <= i < prs.len() ==> reason_owed(prs[i as int], #[trigger] lookups(i)) is None {
            assert(reason_owed(prs[from as int], lookups(from)) is None);
        }
    }
}

/// A pass ends: it asks for at most two actions for each pull request of its
/// batch, a lookup and a dispatch.
pub proof fn lemma_pass_is_bounded(
    prs: Seq<PullRequest>,
    lookups: spec_fn(nat) -> MirrorState,
    dispatched: spec_fn(nat) -> bool,
)
    ensures
        run(initial_state(prs), lookups, dispatched).len() <= 2 * prs.len(),
{
    lemma_pass_serves_every_pull_request(prs, lookups, dispatched);
    lemma_actions_from_bounds(prs, lookups, 0);
}

/// A pass over a batch on which no run is owed dispatches nothing. So a pass
/// that is run again, after the mirrors have caught up with the heads, only
/// looks them up.
pub proof fn lemma_pass_without_debt_dispatches_nothing(
    prs: Seq<PullRequest>,
    lookups: spec_fn(nat) -> MirrorState,
    dispatched: spec_fn(nat) -> bool,
)
    requires
        forall|i: nat| i < prs.len() ==> reason_owed(prs[i as int], #[trigger] lookups(i)) is None,
    ensures
        forall|k: int|
            0 <= k < run(initial_state(prs), lookups, dispatched).len() ==> !(#[trigger] run(
                initial_state(prs),
                lookups,
                dispatched,
            )[k] is Dispatch),
{
    lemma_pass_serves_every_pull_request(prs, lookups, dispatched);
    lemma_actions_from_bounds(prs, lookups, 0);
}

/// A pull request whose head lies outside the canonical organisation causes
/// no lookup and no dispatch, whatever its mirror holds.
pub proof fn lemma_foreign_owner_causes_nothing(pr: PullRequest, mirror: MirrorState)
    requires
        !is_canonical(pr),
    ensures
        actions_for(pr, mirror) == Seq::<ActionView>::empty(),
{
}

/// Where no mirror exists yet, the run is asked for: on the target branch,
/// for the mirror branch derived from the pull request's number, with the
/// pull request's head branch.
pub proof fn lemma_missing_mirror_is_dispatched(pr: PullRequest)
    requires
        is_canonical(pr),
    ensures
        actions_for(pr, MirrorState::NotFound) == seq![
            lookup_action(pr),
            ActionView::Dispatch {
                pr_number: pr.number,
                reason: DispatchReason::MirrorMissing,
                request: DispatchRequest {
                    target_ref: TARGET_REF@,
                    mirror_branch_name: mirror_branch_name(pr.number),
                    upstream_branch_name: pr.head_branch_name,
                },
            },
        ],
{
}

/// Where the mirror records the head commit of the pull request, the lookup
/// is all that happens.
pub proof fn lemma_mirror_in_sync_is_left_alone(pr: PullRequest)
    requires
        is_canonical(pr),
    ensures
        actions_for(pr, MirrorState::Found(pr.head_commit_hash)) == seq![lookup_action(pr)],
{
}

/// Where the mirror records another commit, the run is asked for with the
/// head branch that the pull request has now.
pub proof fn lemma_stale_mirror_is_dispatched(pr: PullRequest, recorded: Seq<char>)
    requires
        is_canonical(pr),
        recorded != pr.head_commit_hash,
    ensures
        actions_for(pr, MirrorState::Found(recorded)) == seq![
            lookup_action(pr),
            ActionView::Dispatch {
                pr_number: pr.number,
                reason: DispatchReason::HashDiffers,
                request: DispatchRequest {
                    target_ref: TARGET_REF@,
                    mirror_branch_name: mirror_branch_name(pr.number),
                    upstream_branch_name: pr.head_branch_name,
                },
            },
        ],
{
}

/// A lookup that fails is served as a missing mirror is: nothing where the
/// ownership gate is shut, and else the same lookup followed by the same
/// run, told apart by the reason alone.
pub proof fn lemma_failed_lookup_fails_open(pr: PullRequest)
    ensures
        !is_canonical(pr) ==> {
            &&& actions_for(pr, MirrorState::TransientFailure) == Seq::<ActionView>::empty()
            &&& actions_for(pr, MirrorState::NotFound) == Seq::<ActionView>::empty()
        },
        is_canonical(pr) ==> {
            &&& actions_for(pr, MirrorState::TransientFailure) == seq![
                lookup_action(pr),
                dispatch_action(pr, DispatchReason::LookupFailed),
            ]
            &&& actions_for(pr, MirrorState::NotFound) == seq![
                lookup_action(pr),
                dispatch_action(pr, DispatchReason::MirrorMissing),
            ]
        },
{
}

} // verus!
