//! The search itself: the address to ask, the transport that is asked, and
//! what is made of its answer.

use crate::error::QueryError;
use crate::project::{parse_projects, projects_in, views, Project};
use std::collections::HashMap;
use vstd::prelude::*;
use vstd::string::StringExecFns;

verus! {

/// Address of the service's list of projects.
pub const GITLAB_URL: &'static str = "https://gitlab.com/api/v4/projects";

/// The address that a search for `term` asks: the list of projects, narrowed
/// to the term, to private projects and to the short form of a record. The
/// term stands in it character for character.
pub open spec fn search_url_of(term: Seq<char>) -> Seq<char> {
    "https://gitlab.com/api/v4/projects"@ + "/?search="@ + term
        + "&visibility=private&simple=true"@
}

/// Builds the address that a search for `term` asks.
pub fn search_url(term: &str) -> (url: String)
    ensures
        url@ == search_url_of(term@),
{
    String::from_str(GITLAB_URL).concat("/?search=").concat(term).concat(
        "&visibility=private&simple=true",
    )
}

/// A way to reach the service.
///
/// The search does not know which transport it talks to: one that goes over
/// the network and one that answers from memory serve alike.
pub trait Request {
    /// Whether this transport may give `response` to a GET of `url`. A
    /// transport that says nothing of its own promises nothing: every
    /// response is possible.
    open spec fn may_answer(&self, url: Seq<char>, response: Result<String, QueryError>) -> bool {
        true
    }

    /// Sends a GET to `url` and returns the response body as text, unread.
    fn get(&self, url: String) -> (response: Result<String, QueryError>)
        ensures
            self.may_answer(url@, response),
    ;

    /// Sends a POST to `url` with `body` as a JSON object and returns the
    /// response body as text, unread.
    fn post(&self, url: String, body: &HashMap<String, String>) -> (response: Result<
        String,
        QueryError,
    >);
}

/// Whether `outcome` is what a search makes of `response`.
///
/// A failure of the transport is handed on as it is. A body gives the records
/// that it denotes, in its order, and a deserialization error where it denotes
/// none.
pub open spec fn is_outcome_of(
    response: Result<String, QueryError>,
    outcome: Result<Vec<Project>, QueryError>,
) -> bool {
    match response {
        Ok(body) => match projects_in(body@) {
            Some(records) => outcome matches Ok(projects) && views(projects@) == records,
            None => outcome matches Err(QueryError::Deserialization(_)),
        },
        Err(error) => outcome == Err::<Vec<Project>, QueryError>(error),
    }
}

/// Turns a transport's response into the outcome of the search.
pub fn read_response(response: Result<String, QueryError>) -> (outcome: Result<
    Vec<Project>,
    QueryError,
>)
    ensures
        is_outcome_of(response, outcome),
{
    match response {
        Ok(body) => parse_projects(body.as_str()),
        Err(error) => Err(error),
    }
}

/// Searches the service for the private projects whose name matches
/// `project_name`.
///
/// One GET goes to the transport, for the address [`search_url_of`] of the
/// name, and the outcome is what [`is_outcome_of`] makes of its response.
pub fn get_project<R: Request>(request: &R, project_name: &String) -> (outcome: Result<
    Vec<Project>,
    QueryError,
>)
    ensures
        exists|response: Result<String, QueryError>|
            request.may_answer(search_url_of(project_name@), response) && is_outcome_of(
                response,
                outcome,
            ),
{
    let url = search_url(project_name.as_str());
    let response = request.get(url);
    let ghost given = response;
    let outcome = read_response(response);
    assert(request.may_answer(search_url_of(project_name@), given) && is_outcome_of(
        given,
        outcome,
    ));
    outcome
}

/// The address of a search holds the term as it was given, between a fixed
/// head of 43 characters and a fixed tail of 31: no character of the term is
/// escaped, dropped or added.
pub proof fn law_term_stands_unescaped(term: Seq<char>)
    ensures
        search_url_of(term).len() == 43 + term.len() + 31,
        search_url_of(term).subrange(0, 43) == "https://gitlab.com/api/v4/projects/?search="@,
        search_url_of(term).subrange(43, 43 + term.len() as int) == term,
        search_url_of(term).subrange(43 + term.len() as int, 74 + term.len() as int)
            == "&visibility=private&simple=true"@,
{
    reveal_strlit("https://gitlab.com/api/v4/projects");
    reveal_strlit("/?search=");
    reveal_strlit("&visibility=private&simple=true");
    reveal_strlit("https://gitlab.com/api/v4/projects/?search=");
    let url = search_url_of(term);
    assert(url.subrange(0, 43) =~= "https://gitlab.com/api/v4/projects/?search="@);
    assert(url.subrange(43, 43 + term.len() as int) =~= term);
    assert(url.subrange(43 + term.len() as int, 74 + term.len() as int) =~= "&visibility=private&simple=true"@);
}

/// Two searches ask the same address only for the same term.
pub proof fn law_address_tells_term(first: Seq<char>, second: Seq<char>)
    requires
        search_url_of(first) == search_url_of(second),
    ensures
        first == second,
{
    law_term_stands_unescaped(first);
    law_term_stands_unescaped(second);
}

} // verus!
