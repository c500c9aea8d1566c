//! The question put to the upstream repository.

use vstd::prelude::*;

verus! {

/// The text of the GraphQL query: the open pull requests of the upstream
/// repository that carry the mobile label, each with its head commit hash,
/// number, head branch name and the login of the head repository's owner.
///
/// Known limitation: the query asks for the first 100 such pull requests and
/// for no further page, so open pull requests beyond the hundredth are not
/// seen by a pass.
pub open spec fn graphql_query_text() -> Seq<char> {
    r#"
{
  repository(owner: "wordpress", name: "gutenberg") {
    pullRequests(first: 100, states: [OPEN], labels: ["Mobile App - i.e. Android or iOS"]) {
      nodes {
        headRefOid
        number
        headRefName
        headRepositoryOwner {
            login
        }
      }
    }
  }
}
"#@
}

/// The GraphQL query that lists the candidate pull requests.
pub fn graphql_query() -> (query: &'static str)
    ensures
        query@ == graphql_query_text(),
{
    r#"
{
  repository(owner: "wordpress", name: "gutenberg") {
    pullRequests(first: 100, states: [OPEN], labels: ["Mobile App - i.e. Android or iOS"]) {
      nodes {
        headRefOid
        number
        headRefName
        headRepositoryOwner {
            login
        }
      }
    }
  }
}
"#
}

} // verus!
