use gutenberg_mirror::dispatch::DispatchReason;
use gutenberg_mirror::mirror::{MirrorLookup, MirrorLookupRequest};
use gutenberg_mirror::model::{
    GithubContent, GutenbergMobileCIParams, GutenbergPR, RepositoryOwner,
};
use gutenberg_mirror::pass::{Action, Event, Reconciliation};

const HASH_A: &str = "aaaaaaaaaaaaaaaaaaaaaaaaaaaaaaaaaaaaaaaa";
const HASH_B: &str = "bbbbbbbbbbbbbbbbbbbbbbbbbbbbbbbbbbbbbbbb";

fn candidate(number: u64, oid: &str, branch: &str, owner: &str) -> GutenbergPR {
    GutenbergPR {
        head_ref_oid: oid.to_string(),
        number,
        head_ref_name: branch.to_string(),
        head_repository_owner: RepositoryOwner { login: owner.to_string() },
    }
}

fn mirror_at(sha: &str) -> MirrorLookup {
    MirrorLookup::Found(GithubContent { sha: sha.to_string() })
}

fn lookup_for(number: u64) -> Action {
    Action::Lookup {
        pr_number: number,
        request: MirrorLookupRequest {
            url: "https://api.github.com/repos/oguzkocer/version-test-bin/contents/gutenberg"
                .to_string(),
            reference: format!("automated-gutenberg-update/for-pr-{}", number),
        },
    }
}

fn dispatch_of(number: u64, reason: DispatchReason, branch: &str) -> Action {
    Action::Dispatch {
        pr_number: number,
        reason,
        params: GutenbergMobileCIParams::new(
            "trunk",
            &format!("automated-gutenberg-update/for-pr-{}", number),
            branch,
        ),
    }
}

/// Runs a whole pass, answering each lookup and each dispatch as the two
/// functions say, and returns every action asked for before `Finished`.
fn run_pass(
    prs: Vec<GutenbergPR>,
    lookup: &dyn Fn(u64) -> MirrorLookup,
    dispatch_succeeds: &dyn Fn(u64) -> bool,
) -> Vec<Action> {
    let bound = 2 * prs.len() + 1;
    let mut pass = Reconciliation::new(prs);
    let mut asked = Vec::new();
    let mut action = pass.pending();
    for _ in 0..bound {
        let event = match &action {
            Action::Lookup { pr_number, .. } => Event::LookupResolved(lookup(*pr_number)),
            Action::Dispatch { pr_number, .. } => {
                if dispatch_succeeds(*pr_number) {
                    Event::DispatchSucceeded
                } else {
                    Event::DispatchFailed
                }
            }
            Action::Finished => return asked,
        };
        asked.push(action);
        action = pass.step(&event);
    }
    panic!("the pass did not finish within {} steps", bound);
}

fn dispatch_count(actions: &[Action]) -> usize {
    actions.iter().filter(|action| matches!(action, Action::Dispatch { .. })).count()
}

fn lookup_count(actions: &[Action]) -> usize {
    actions.iter().filter(|action| matches!(action, Action::Lookup { .. })).count()
}

#[test]
fn an_empty_batch_is_finished_at_once() {
    let mut pass = Reconciliation::new(Vec::new());
    assert_eq!(pass.pending(), Action::Finished);
    assert!(pass.current().is_none());
    assert_eq!(pass.step(&Event::DispatchSucceeded), Action::Finished);
    assert_eq!(pass.step(&Event::LookupResolved(MirrorLookup::NotFound)), Action::Finished);
    assert_eq!(pass.pending(), Action::Finished);
}

#[test]
fn a_foreign_pull_request_causes_no_lookup_and_no_dispatch() {
    for lookup in [
        MirrorLookup::NotFound,
        MirrorLookup::TransientFailure,
        mirror_at(HASH_A),
        mirror_at(HASH_B),
    ] {
        let asked = run_pass(
            vec![candidate(12, HASH_A, "fork/patch", "a-third-party")],
            &|_| lookup.clone(),
            &|_| true,
        );
        assert_eq!(asked, Vec::<Action>::new());
    }
    let mut pass = Reconciliation::new(vec![candidate(12, HASH_A, "fork/patch", "a-third-party")]);
    assert_eq!(pass.pending(), Action::Finished);
    assert_eq!(pass.step(&Event::LookupResolved(MirrorLookup::NotFound)), Action::Finished);
}

#[test]
fn a_missing_mirror_is_dispatched_with_the_derived_branch() {
    let asked = run_pass(
        vec![candidate(11, HASH_A, "fix/toolbar", "WordPress")],
        &|_| MirrorLookup::NotFound,
        &|_| true,
    );
    assert_eq!(
        asked,
        vec![lookup_for(11), dispatch_of(11, DispatchReason::MirrorMissing, "fix/toolbar")]
    );
    match &asked[1] {
        Action::Dispatch { params, .. } => {
            assert_eq!(params.reference, "trunk");
            assert_eq!(params.inputs.pr_branch_name, "automated-gutenberg-update/for-pr-11");
            assert_eq!(params.inputs.gutenberg_branch_name, "fix/toolbar");
        }
        other => panic!("expected a dispatch, got {:?}", other),
    }
}

#[test]
fn a_mirror_in_sync_is_not_dispatched() {
    let asked = run_pass(
        vec![candidate(10, HASH_A, "fix/toolbar", "WordPress")],
        &|_| mirror_at(HASH_A),
        &|_| true,
    );
    assert_eq!(asked, vec![lookup_for(10)]);
}

#[test]
fn a_stale_mirror_is_dispatched_with_the_current_branch() {
    let asked = run_pass(
        vec![candidate(11, HASH_B, "renamed/branch", "WordPress")],
        &|_| mirror_at(HASH_A),
        &|_| true,
    );
    assert_eq!(
        asked,
        vec![lookup_for(11), dispatch_of(11, DispatchReason::HashDiffers, "renamed/branch")]
    );
}

#[test]
fn a_failed_lookup_is_served_like_a_missing_mirror() {
    let batch = || {
        vec![
            candidate(20, HASH_A, "first", "WordPress"),
            candidate(21, HASH_B, "second", "WordPress"),
        ]
    };
    let failing = run_pass(batch(), &|_| MirrorLookup::TransientFailure, &|_| true);
    let missing = run_pass(batch(), &|_| MirrorLookup::NotFound, &|_| true);
    assert_eq!(
        failing,
        vec![
            lookup_for(20),
            dispatch_of(20, DispatchReason::LookupFailed, "first"),
            lookup_for(21),
            dispatch_of(21, DispatchReason::LookupFailed, "second"),
        ]
    );
    assert_eq!(
        missing,
        vec![
            lookup_for(20),
            dispatch_of(20, DispatchReason::MirrorMissing, "first"),
            lookup_for(21),
            dispatch_of(21, DispatchReason::MirrorMissing, "second"),
        ]
    );
}

#[test]
fn a_failed_lookup_does_not_stop_the_pass() {
    let asked = run_pass(
        vec![
            candidate(30, HASH_A, "first", "WordPress"),
            candidate(31, HASH_A, "second", "WordPress"),
            candidate(32, HASH_B, "third", "WordPress"),
        ],
        &|number| if number == 30 { MirrorLookup::TransientFailure } else { mirror_at(HASH_A) },
        &|_| true,
    );
    assert_eq!(
        asked,
        vec![
            lookup_for(30),
            dispatch_of(30, DispatchReason::LookupFailed, "first"),
            lookup_for(31),
            lookup_for(32),
            dispatch_of(32, DispatchReason::HashDiffers, "third"),
        ]
    );
}

#[test]
fn a_failed_dispatch_does_not_stop_the_pass() {
    let batch = || {
        vec![
            candidate(40, HASH_A, "first", "WordPress"),
            candidate(41, HASH_A, "second", "someone-else"),
            candidate(42, HASH_A, "third", "WordPress"),
            candidate(43, HASH_A, "fourth", "WordPress"),
        ]
    };
    let all_fail = run_pass(batch(), &|_| MirrorLookup::NotFound, &|_| false);
    let all_succeed = run_pass(batch(), &|_| MirrorLookup::NotFound, &|_| true);
    let some_fail = run_pass(batch(), &|_| MirrorLookup::NotFound, &|number| number != 42);
    assert_eq!(all_fail, all_succeed);
    assert_eq!(some_fail, all_succeed);
    assert_eq!(
        all_fail,
        vec![
            lookup_for(40),
            dispatch_of(40, DispatchReason::MirrorMissing, "first"),
            lookup_for(42),
            dispatch_of(42, DispatchReason::MirrorMissing, "third"),
            lookup_for(43),
            dispatch_of(43, DispatchReason::MirrorMissing, "fourth"),
        ]
    );
}

#[test]
fn batch_of_three_dispatches_once() {
    let asked = run_pass(
        vec![
            candidate(10, HASH_A, "in-sync", "WordPress"),
            candidate(11, HASH_B, "moved-on", "WordPress"),
            candidate(12, HASH_B, "from-a-fork", "a-fork-owner"),
        ],
        &|number| {
            assert!(number == 10 || number == 11, "no lookup is owed for #{}", number);
            mirror_at(HASH_A)
        },
        &|number| {
            assert_eq!(number, 11, "no dispatch is owed for #{}", number);
            true
        },
    );
    assert_eq!(
        asked,
        vec![
            lookup_for(10),
            lookup_for(11),
            dispatch_of(11, DispatchReason::HashDiffers, "moved-on"),
        ]
    );
    assert_eq!(lookup_count(&asked), 2);
    assert_eq!(dispatch_count(&asked), 1);
    match &asked[2] {
        Action::Dispatch { params, .. } => {
            assert_eq!(params.reference, "trunk");
            assert_eq!(params.inputs.pr_branch_name, "automated-gutenberg-update/for-pr-11");
        }
        other => panic!("expected a dispatch, got {:?}", other),
    }
}

#[test]
fn foreign_pull_requests_are_passed_over_wherever_they_stand() {
    let asked = run_pass(
        vec![
            candidate(1, HASH_A, "a", "fork-one"),
            candidate(2, HASH_A, "b", "fork-two"),
            candidate(3, HASH_A, "c", "WordPress"),
            candidate(4, HASH_A, "d", "fork-three"),
            candidate(5, HASH_A, "e", "WordPress"),
            candidate(6, HASH_A, "f", "fork-four"),
            candidate(7, HASH_A, "g", "fork-five"),
        ],
        &|_| MirrorLookup::NotFound,
        &|_| true,
    );
    assert_eq!(
        asked,
        vec![
            lookup_for(3),
            dispatch_of(3, DispatchReason::MirrorMissing, "c"),
            lookup_for(5),
            dispatch_of(5, DispatchReason::MirrorMissing, "e"),
        ]
    );
}

#[test]
fn pull_requests_are_served_in_the_order_given() {
    let asked = run_pass(
        vec![
            candidate(9, HASH_A, "late", "WordPress"),
            candidate(3, HASH_A, "early", "WordPress"),
            candidate(9, HASH_B, "again", "WordPress"),
        ],
        &|_| mirror_at(HASH_A),
        &|_| true,
    );
    assert_eq!(
        asked,
        vec![
            lookup_for(9),
            lookup_for(3),
            lookup_for(9),
            dispatch_of(9, DispatchReason::HashDiffers, "again"),
        ]
    );
}

#[test]
fn the_pending_action_is_repeated_until_answered() {
    let mut pass = Reconciliation::new(vec![
        candidate(50, HASH_A, "first", "WordPress"),
        candidate(51, HASH_A, "second", "WordPress"),
    ]);
    assert_eq!(pass.pending(), lookup_for(50));
    assert_eq!(pass.pending(), lookup_for(50));
    assert_eq!(pass.current().map(|pr| pr.number), Some(50));
    // A dispatch outcome answers no lookup.
    assert_eq!(pass.step(&Event::DispatchSucceeded), lookup_for(50));
    assert_eq!(pass.step(&Event::DispatchFailed), lookup_for(50));
    let owed = dispatch_of(50, DispatchReason::MirrorMissing, "first");
    assert_eq!(pass.step(&Event::LookupResolved(MirrorLookup::NotFound)), owed);
    assert_eq!(pass.pending(), owed);
    assert_eq!(pass.current().map(|pr| pr.number), Some(50));
    // A lookup outcome answers no dispatch, whatever it says.
    assert_eq!(pass.step(&Event::LookupResolved(mirror_at(HASH_A))), owed);
    assert_eq!(pass.step(&Event::LookupResolved(MirrorLookup::TransientFailure)), owed);
    assert_eq!(pass.step(&Event::DispatchFailed), lookup_for(51));
    assert_eq!(pass.current().map(|pr| pr.number), Some(51));
    assert_eq!(pass.step(&Event::LookupResolved(mirror_at(HASH_A))), Action::Finished);
    assert!(pass.current().is_none());
    assert_eq!(pass.step(&Event::LookupResolved(MirrorLookup::NotFound)), Action::Finished);
    assert_eq!(pass.step(&Event::DispatchSucceeded), Action::Finished);
    assert_eq!(pass.pending(), Action::Finished);
}

#[test]
fn a_second_pass_over_a_mirror_in_sync_does_nothing_more() {
    let batch = || vec![candidate(60, HASH_B, "moved", "WordPress")];
    let first = run_pass(batch(), &|_| mirror_at(HASH_A), &|_| true);
    assert_eq!(dispatch_count(&first), 1);
    let second = run_pass(batch(), &|_| mirror_at(HASH_B), &|_| true);
    assert_eq!(second, vec![lookup_for(60)]);
}

#[test]
fn a_dispatch_succeeded_where_the_status_says_so() {
    for status in [200u16, 201, 204, 299] {
        assert_eq!(Event::dispatched(Some(status)), Event::DispatchSucceeded, "{}", status);
    }
}

#[test]
fn a_dispatch_failed_on_any_other_status_and_without_an_answer() {
    for status in [0u16, 100, 199, 300, 301, 400, 401, 403, 404, 422, 500, 503, u16::MAX] {
        assert_eq!(Event::dispatched(Some(status)), Event::DispatchFailed, "{}", status);
    }
    assert_eq!(Event::dispatched(None), Event::DispatchFailed);
}
