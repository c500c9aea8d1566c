//! The CI dispatcher's decision: whether a workflow run is owed for one pull
//! request, and what the run is asked with.

use crate::branch::{automated_branch_name, mirror_branch_name};
use crate::fields::text_member;
use crate::json::json_parse;
use crate::mirror::{resolved_state, MirrorLookup, MirrorResponse, MirrorState, STATUS_OK};
use crate::model::{DispatchRequest, GutenbergMobileCIParams, GutenbergPR, PullRequest};
use vstd::prelude::*;

verus! {

/// The login of the organisation whose pull requests are built.
pub const CANONICAL_OWNER: &'static str = "WordPress";

/// The branch of the control repository that the workflow runs on.
pub const TARGET_REF: &'static str = "trunk";

/// Where the control repository takes requests to run the workflow.
pub const WORKFLOW_DISPATCH_URL: &'static str =
    "https://api.github.com/repos/oguzkocer/version-test-bin/actions/workflows/update-gutenberg.yml/dispatches";

/// Why a workflow run is owed.
#[derive(Debug, Clone, Copy, PartialEq, Eq)]
pub enum DispatchReason {
    /// No mirror has been made yet.
    MirrorMissing,
    /// The state of the mirror could not be read; the run is owed all the
    /// same, since a redundant run costs less than a missed one.
    LookupFailed,
    /// The mirror tracks another commit than the head of the pull request.
    HashDiffers,
}

/// Whether the head of `pr` lies in a repository of the canonical
/// organisation.
pub open spec fn is_canonical(pr: PullRequest) -> bool {
    pr.head_owner_login == CANONICAL_OWNER@
}

/// Why a run is owed for a pull request whose mirror was found in `state`,
/// or `None` where the mirror already tracks the head commit.
pub open spec fn reason_owed(pr: PullRequest, state: MirrorState) -> Option<DispatchReason> {
    match state {
        MirrorState::Found(hash) => if hash == pr.head_commit_hash {
            None
        } else {
            Some(DispatchReason::HashDiffers)
        },
        MirrorState::NotFound => Some(DispatchReason::MirrorMissing),
        MirrorState::TransientFailure => Some(DispatchReason::LookupFailed),
    }
}

/// The run to ask for on behalf of `pr`: on the target branch, for the
/// mirror branch of `pr` and the head branch that `pr` has now.
pub open spec fn dispatch_for(pr: PullRequest) -> DispatchRequest {
    DispatchRequest {
        target_ref: TARGET_REF@,
        mirror_branch_name: mirror_branch_name(pr.number),
        upstream_branch_name: pr.head_branch_name,
    }
}

/// A run is withheld only on proof that the mirror is in sync: the control
/// repository answered the lookup with status 200 and a body that records,
/// under `sha`, the very hash of the pull request's head commit. Whatever
/// else comes back, and where nothing comes back, the run is owed.
pub proof fn lemma_run_owed_unless_in_sync(pr: PullRequest, response: Option<MirrorResponse>)
    ensures
        reason_owed(pr, resolved_state(response)) is None <==> {
            &&& response matches Some(answer)
            &&& answer.status == STATUS_OK
            &&& json_parse(answer.body@) matches Some(document)
            &&& text_member(document, "sha"@) == Some(pr.head_commit_hash)
        },
{
}

/// The ownership gate: only pull requests whose head lies with the
/// canonical organisation are ever looked up or built.
pub fn is_canonical_owner(pr: &GutenbergPR) -> (canonical: bool)
    ensures
        canonical == is_canonical(pr@),
{
    let owner = CANONICAL_OWNER.to_owned();
    pr.head_repository_owner.login == owner
}

/// The state comparison: tells whether a run is owed given what the lookup
/// of the mirror brought, and why.
pub fn trigger_reason(pr: &GutenbergPR, lookup: &MirrorLookup) -> (reason: Option<DispatchReason>)
    ensures
        reason == reason_owed(pr@, lookup@),
{
    match lookup {
        MirrorLookup::Found(content) => {
            if content.sha == pr.head_ref_oid {
                None
            } else {
                Some(DispatchReason::HashDiffers)
            }
        },
        MirrorLookup::NotFound => Some(DispatchReason::MirrorMissing),
        MirrorLookup::TransientFailure => Some(DispatchReason::LookupFailed),
    }
}

/// The parameters of the workflow run for `pr`.
pub fn ci_params_for(pr: &GutenbergPR) -> (params: GutenbergMobileCIParams)
    ensures
        params@ == dispatch_for(pr@),
{
    let branch_name = automated_branch_name(pr.number);
    GutenbergMobileCIParams::new(TARGET_REF, branch_name.as_str(), pr.head_ref_name.as_str())
}

} // verus!
