//! The pull request source: reading the candidate pull requests out of the
//! answer to the upstream query.

use crate::fields::{member_text, member_unsigned, text_member, unsigned_member};
use crate::json::{json_elements, json_member, json_model, json_models, member_model, JsonModel};
use crate::model::{pull_request_views, GutenbergPR, PullRequest, RepositoryOwner};
use vstd::prelude::*;

verus! {

/// Why an answer to the upstream query yields no pull requests.
#[derive(Debug, Clone, Copy, PartialEq, Eq)]
pub enum UpstreamQueryError {
    /// The answer holds no list at `data.repository.pullRequests.nodes`.
    MissingPullRequests,
    /// The entry at `index` of the list lacks a field of a pull request
    /// record, or holds it with another type.
    MalformedPullRequest { index: usize },
}

/// The pull request that one entry of the list records: an object with the
/// texts `headRefOid` and `headRefName`, the unsigned number `number`, and
/// under `headRepositoryOwner` an object with the text `login`. Any other
/// entry records none.
pub open spec fn pull_request_of(node: JsonModel) -> Option<PullRequest> {
    match (
        text_member(node, "headRefOid"@),
        unsigned_member(node, "number"@),
        text_member(node, "headRefName"@),
        member_model(node, "headRepositoryOwner"@),
    ) {
        (Some(hash), Some(number), Some(branch), Some(owner)) => match text_member(
            owner,
            "login"@,
        ) {
            Some(login) => Some(
                PullRequest {
                    number: number as nat,
                    head_commit_hash: hash,
                    head_branch_name: branch,
                    head_owner_login: login,
                },
            ),
            None => None,
        },
        _ => None,
    }
}

/// The entries of the list at `data.repository.pullRequests.nodes`.
pub open spec fn pull_request_nodes(response: JsonModel) -> Option<Seq<JsonModel>> {
    match member_model(response, "data"@) {
        Some(data) => match member_model(data, "repository"@) {
            Some(repository) => match member_model(repository, "pullRequests"@) {
                Some(pull_requests) => match member_model(pull_requests, "nodes"@) {
                    Some(JsonModel::Array(nodes)) => Some(nodes),
                    _ => None,
                },
                None => None,
            },
            None => None,
        },
        None => None,
    }
}

/// The entry that records `pr`, with no field beyond those of a record.
pub open spec fn node_recording(pr: PullRequest) -> JsonModel {
    JsonModel::Object(
        map![
            "headRefOid"@ => JsonModel::Text(pr.head_commit_hash),
            "number"@ => JsonModel::Unsigned(pr.number as u64),
            "headRefName"@ => JsonModel::Text(pr.head_branch_name),
            "headRepositoryOwner"@ => JsonModel::Object(
                map!["login"@ => JsonModel::Text(pr.head_owner_login)],
            ),
        ],
    )
}

/// The answer that lists `nodes` and holds nothing else.
pub open spec fn response_listing(nodes: Seq<JsonModel>) -> JsonModel {
    JsonModel::Object(
        map![
            "data"@ => JsonModel::Object(
                map![
                    "repository"@ => JsonModel::Object(
                        map![
                            "pullRequests"@ => JsonModel::Object(
                                map!["nodes"@ => JsonModel::Array(nodes)],
                            ),
                        ],
                    ),
                ],
            ),
        ],
    )
}

/// What is recorded is read back: the entry that records a pull request is
/// read as that pull request.
pub proof fn lemma_recorded_pull_request_is_read(pr: PullRequest)
    requires
        pr.number <= u64::MAX,
    ensures
        pull_request_of(node_recording(pr)) == Some(pr),
{
    reveal_strlit("headRefOid");
    reveal_strlit("number");
    reveal_strlit("headRefName");
    reveal_strlit("headRepositoryOwner");
    let node = node_recording(pr);
    let owner = JsonModel::Object(map!["login"@ => JsonModel::Text(pr.head_owner_login)]);
    assert("headRefOid"@.len() == 10 && "number"@.len() == 6 && "headRefName"@.len() == 11
        && "headRepositoryOwner"@.len() == 19);
    assert(text_member(node, "headRefOid"@) == Some(pr.head_commit_hash));
    assert(unsigned_member(node, "number"@) == Some(pr.number as u64));
    assert(text_member(node, "headRefName"@) == Some(pr.head_branch_name));
    assert(member_model(node, "headRepositoryOwner"@) == Some(owner));
    assert(text_member(owner, "login"@) == Some(pr.head_owner_login));
}

/// An answer that lists entries is read as listing those entries.
pub proof fn lemma_listed_nodes_are_read(nodes: Seq<JsonModel>)
    ensures
        pull_request_nodes(response_listing(nodes)) == Some(nodes),
{
}

/// Reads one entry of the list as a pull request record.
pub fn pull_request_from_node(node: &serde_json::Value) -> (record: Option<GutenbergPR>)
    ensures
        match record {
            Some(pr) => pull_request_of(json_model(*node)) == Some(pr@),
            None => pull_request_of(json_model(*node)) is None,
        },
{
    let head_ref_oid = match member_text(node, "headRefOid") {
        Some(text) => text,
        None => return None,
    };
    let number = match member_unsigned(node, "number") {
        Some(number) => number,
        None => return None,
    };
    let head_ref_name = match member_text(node, "headRefName") {
        Some(text) => text,
        None => return None,
    };
    let owner = match json_member(node, "headRepositoryOwner") {
        Some(owner) => owner,
        None => return None,
    };
    let login = match member_text(owner, "login") {
        Some(text) => text,
        None => return None,
    };
    Some(
        GutenbergPR {
            head_ref_oid: head_ref_oid.to_owned(),
            number,
            head_ref_name: head_ref_name.to_owned(),
            head_repository_owner: RepositoryOwner { login: login.to_owned() },
        },
    )
}

fn response_nodes<'a>(response: &'a serde_json::Value) -> (nodes: Option<&'a Vec<serde_json::Value>>)
    ensures
        match nodes {
            Some(items) => pull_request_nodes(json_model(*response)) == Some(
                json_models(items@),
            ),
            None => pull_request_nodes(json_model(*response)) is None,
        },
{
    let data = match json_member(response, "data") {
        Some(member) => member,
        None => return None,
    };
    let repository = match json_member(data, "repository") {
        Some(member) => member,
        None => return None,
    };
    let pull_requests = match json_member(repository, "pullRequests") {
        Some(member) => member,
        None => return None,
    };
    match json_member(pull_requests, "nodes") {
        Some(member) => json_elements(member),
        None => None,
    }
}

/// Reads the candidate pull requests out of the answer to the upstream
/// query, in the order in which the answer lists them.
///
/// The answer is accepted when it holds a list at
/// `data.repository.pullRequests.nodes` and every entry of the list is a
/// pull request record. Otherwise the error names what is wrong: the list is
/// missing, or the first entry that is no record.
pub fn pull_requests_from_response(response: &serde_json::Value) -> (result: Result<
    Vec<GutenbergPR>,
    UpstreamQueryError,
>)
    ensures
        match result {
            Ok(prs) => {
                &&& pull_request_nodes(json_model(*response)) matches Some(nodes)
                &&& prs.len() == nodes.len()
                &&& forall|i: int|
                    0 <= i < nodes.len() ==> pull_request_of(#[trigger] nodes[i]) == Some(
                        pull_request_views(prs@)[i],
                    )
            },
            Err(UpstreamQueryError::MissingPullRequests) => pull_request_nodes(
                json_model(*response),
            ) is None,
            Err(UpstreamQueryError::MalformedPullRequest { index }) => {
                &&& pull_request_nodes(json_model(*response)) matches Some(nodes)
                &&& index < nodes.len()
                &&& pull_request_of(nodes[index as int]) is None
                &&& forall|i: int| 0 <= i < index ==> pull_request_of(#[trigger] nodes[i]) is Some
            },
        },
{
    let nodes = match response_nodes(response) {
        Some(nodes) => nodes,
        None => return Err(UpstreamQueryError::MissingPullRequests),
    };
    let ghost models = json_models(nodes@);
    let mut prs: Vec<GutenbergPR> = Vec::new();
    let mut index: usize = 0;
    while index < nodes.len()
        invariant
            index <= nodes.len(),
            prs.len() == index,
            models == json_models(nodes@),
            pull_request_nodes(json_model(*response)) == Some(models),
            forall|i: int|
                0 <= i < index ==> pull_request_of(#[trigger] models[i]) == Some(prs@[i]@),
        decreases nodes.len() - index,
    {
        assert(models[index as int] == json_model(nodes@[index as int]));
        match pull_request_from_node(&nodes[index]) {
            Some(pr) => {
                prs.push(pr);
            },
            None => {
                return Err(UpstreamQueryError::MalformedPullRequest { index });
            },
        }
        index += 1;
    }
    Ok(prs)
}

} // verus!
