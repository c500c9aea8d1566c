//! The mirror state resolver: what to ask the control repository about one
//! mirror branch, and what its answer means.

use crate::fields::{member_text, text_member};
use crate::json::{json_model, json_parse, parse_json, JsonModel};
use crate::model::GithubContent;
use vstd::prelude::*;
use vstd::string::StringExecFns;

verus! {

/// Where the control repository serves the content that a mirror branch
/// records.
pub const MIRROR_CONTENT_URL: &'static str =
    "https://api.github.com/repos/oguzkocer/version-test-bin/contents/gutenberg";

/// The status with which the control repository serves a recorded content.
pub const STATUS_OK: u16 = 200;

/// The status with which the control repository says that a mirror branch
/// records nothing yet.
pub const STATUS_NOT_FOUND: u16 = 404;

/// A read of the content recorded on one branch of the control repository.
#[derive(Debug, Clone, PartialEq, Eq)]
pub struct MirrorLookupRequest {
    pub url: String,
    pub reference: String,
}

/// What contracts see of a lookup request.
pub struct LookupRequest {
    pub url: Seq<char>,
    pub reference: Seq<char>,
}

impl View for MirrorLookupRequest {
    type V = LookupRequest;

    open spec fn view(&self) -> LookupRequest {
        LookupRequest { url: self.url@, reference: self.reference@ }
    }
}

/// The lookup of the content recorded on the branch `branch_name`.
pub open spec fn lookup_of(branch_name: Seq<char>) -> LookupRequest {
    LookupRequest { url: MIRROR_CONTENT_URL@, reference: branch_name }
}

impl MirrorLookupRequest {
    /// The lookup of the content recorded on the branch `branch_name`.
    pub fn for_branch(branch_name: &str) -> (request: Self)
        ensures
            request@ == lookup_of(branch_name@),
    {
        MirrorLookupRequest {
            url: MIRROR_CONTENT_URL.to_owned(),
            reference: branch_name.to_owned(),
        }
    }

    /// The address to read: the URL with the branch as its `ref` parameter.
    /// The branch name is written as it is; a mirror branch name holds no
    /// character that a query would need escaped.
    pub fn uri(&self) -> (uri: String)
        ensures
            uri@ == self.url@ + "?ref="@ + self.reference@,
    {
        let mut uri = self.url.clone();
        uri.append("?ref=");
        uri.append(self.reference.as_str());
        uri
    }
}

/// What the control repository answered to a lookup.
#[derive(Debug, Clone, PartialEq, Eq)]
pub struct MirrorResponse {
    pub status: u16,
    pub body: String,
}

/// The outcome of a lookup.
#[derive(Debug, Clone, PartialEq, Eq)]
pub enum MirrorLookup {
    /// The mirror branch records this content.
    Found(GithubContent),
    /// The mirror branch records nothing: no mirror has been made yet.
    NotFound,
    /// The lookup did not tell: the request went unanswered, or the answer
    /// was neither a recorded content nor a plain absence.
    TransientFailure,
}

/// What contracts see of a lookup outcome; `Found` holds the recorded commit
/// hash.
pub enum MirrorState {
    Found(Seq<char>),
    NotFound,
    TransientFailure,
}

impl View for MirrorLookup {
    type V = MirrorState;

    open spec fn view(&self) -> MirrorState {
        match self {
            MirrorLookup::Found(content) => MirrorState::Found(content.sha@),
            MirrorLookup::NotFound => MirrorState::NotFound,
            MirrorLookup::TransientFailure => MirrorState::TransientFailure,
        }
    }
}

/// What an answer with `status` means, `body` being what its body holds as
/// JSON (`None` where it is no JSON document): absence for status 404; for
/// status 200 the commit hash under `sha`, where the body is an object with
/// a text there; and no telling in every other case.
pub open spec fn mirror_state_of(status: u16, body: Option<JsonModel>) -> MirrorState {
    if status == STATUS_NOT_FOUND {
        MirrorState::NotFound
    } else if status == STATUS_OK {
        match body {
            Some(document) => match text_member(document, "sha"@) {
                Some(hash) => MirrorState::Found(hash),
                None => MirrorState::TransientFailure,
            },
            None => MirrorState::TransientFailure,
        }
    } else {
        MirrorState::TransientFailure
    }
}

/// A served body that records `hash` under `sha` is read as a mirror at
/// `hash`, whatever else the body holds.
pub proof fn lemma_recorded_hash_is_found(members: Map<Seq<char>, JsonModel>, hash: Seq<char>)
    requires
        members.contains_key("sha"@),
        members["sha"@] == JsonModel::Text(hash),
    ensures
        mirror_state_of(STATUS_OK, Some(JsonModel::Object(members))) == MirrorState::Found(hash),
{
}

/// What a lookup means that ended with `response`, or unanswered.
pub open spec fn resolved_state(response: Option<MirrorResponse>) -> MirrorState {
    match response {
        Some(answer) => mirror_state_of(answer.status, json_parse(answer.body@)),
        None => MirrorState::TransientFailure,
    }
}

/// The model of a body that was read as JSON, if it was.
pub open spec fn body_model(body: Option<&serde_json::Value>) -> Option<JsonModel> {
    match body {
        Some(value) => Some(json_model(*value)),
        None => None,
    }
}

/// Classifies an answer by its status and its body read as JSON.
pub fn classify_mirror_response(status: u16, body: Option<&serde_json::Value>) -> (lookup:
    MirrorLookup)
    ensures
        lookup@ == mirror_state_of(status, body_model(body)),
{
    if status == STATUS_NOT_FOUND {
        MirrorLookup::NotFound
    } else if status == STATUS_OK {
        match body {
            Some(document) => match member_text(document, "sha") {
                Some(sha) => MirrorLookup::Found(GithubContent { sha: sha.to_owned() }),
                None => MirrorLookup::TransientFailure,
            },
            None => MirrorLookup::TransientFailure,
        }
    } else {
        MirrorLookup::TransientFailure
    }
}

/// Resolves the state of a mirror from what a lookup brought back: the
/// answer of the control repository, or `None` where the request went
/// unanswered.
pub fn resolve_mirror_state(response: Option<&MirrorResponse>) -> (lookup: MirrorLookup)
    ensures
        lookup@ == resolved_state(
            match response {
                Some(answer) => Some(*answer),
                None => None,
            },
        ),
{
    match response {
        Some(answer) => if answer.status == STATUS_OK {
            match parse_json(answer.body.as_str()) {
                Ok(document) => classify_mirror_response(answer.status, Some(&document)),
                Err(_) => classify_mirror_response(answer.status, None),
            }
        } else {
            classify_mirror_response(answer.status, None)
        },
        None => MirrorLookup::TransientFailure,
    }
}

} // verus!
