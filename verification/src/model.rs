//! The records that one reconciliation pass works on, each with the
//! mathematical value that contracts speak of.

use vstd::prelude::*;

verus! {

/// The account that owns the repository a pull request comes from.
#[derive(Debug, Clone, PartialEq, Eq)]
pub struct RepositoryOwner {
    pub login: String,
}

/// One open pull request, as the upstream repository reports it.
#[derive(Debug, Clone, PartialEq, Eq)]
pub struct GutenbergPR {
    pub head_ref_oid: String,
    pub number: u64,
    pub head_ref_name: String,
    pub head_repository_owner: RepositoryOwner,
}

/// What contracts see of a pull request: its number, the hash of its head
/// commit, the name of its head branch and the login of the head
/// repository's owner.
pub struct PullRequest {
    pub number: nat,
    pub head_commit_hash: Seq<char>,
    pub head_branch_name: Seq<char>,
    pub head_owner_login: Seq<char>,
}

impl View for GutenbergPR {
    type V = PullRequest;

    open spec fn view(&self) -> PullRequest {
        PullRequest {
            number: self.number as nat,
            head_commit_hash: self.head_ref_oid@,
            head_branch_name: self.head_ref_name@,
            head_owner_login: self.head_repository_owner.login@,
        }
    }
}

/// The views of a sequence of pull requests, in the same order.
pub open spec fn pull_request_views(prs: Seq<GutenbergPR>) -> Seq<PullRequest> {
    Seq::new(prs.len(), |i: int| prs[i]@)
}

/// The content recorded on a mirror branch: the hash of the upstream commit
/// that the branch tracks.
#[derive(Debug, Clone, PartialEq, Eq)]
pub struct GithubContent {
    pub sha: String,
}

/// The named inputs of the CI workflow.
#[derive(Debug, Clone, PartialEq, Eq)]
pub struct GutenbergMobileCIInputs {
    pub pr_branch_name: String,
    pub gutenberg_branch_name: String,
}

/// A request to run the CI workflow: the branch of the control repository to
/// run it on, and its inputs.
#[derive(Debug, Clone, PartialEq, Eq)]
pub struct GutenbergMobileCIParams {
    pub reference: String,
    pub inputs: GutenbergMobileCIInputs,
}

/// What contracts see of a workflow dispatch.
pub struct DispatchRequest {
    pub target_ref: Seq<char>,
    pub mirror_branch_name: Seq<char>,
    pub upstream_branch_name: Seq<char>,
}

impl View for GutenbergMobileCIParams {
    type V = DispatchRequest;

    open spec fn view(&self) -> DispatchRequest {
        DispatchRequest {
            target_ref: self.reference@,
            mirror_branch_name: self.inputs.pr_branch_name@,
            upstream_branch_name: self.inputs.gutenberg_branch_name@,
        }
    }
}

impl GutenbergMobileCIParams {
    /// A dispatch that runs the workflow on `reference`, for the mirror
    /// branch `branch_name` and the upstream branch `gutenberg_branch_name`.
    pub fn new(reference: &str, branch_name: &str, gutenberg_branch_name: &str) -> (params: Self)
        ensures
            params@ == (DispatchRequest {
                target_ref: reference@,
                mirror_branch_name: branch_name@,
                upstream_branch_name: gutenberg_branch_name@,
            }),
    {
        Self {
            reference: reference.to_owned(),
            inputs: GutenbergMobileCIInputs {
                pr_branch_name: branch_name.to_owned(),
                gutenberg_branch_name: gutenberg_branch_name.to_owned(),
            },
        }
    }
}

} // verus!
