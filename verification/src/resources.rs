//! The `urls` resource: creating a short url, and searching one, which counts a visit.
//!
//! The handlers talk to a database. What they decide stands here; the statements themselves are
//! run by the caller, which hands back their outcomes (see `search_step`).
use vstd::prelude::*;
use vstd::string::*;

use crate::code::{base62, code_of, is_base62_char, is_v4_id, lemma_v4_code_len, new_v4_id, short_code, CODE_LEN};
use crate::error::{is_db_error, DbFailure, Error};
use crate::models::{Url, Visit};

verus! {

/// Where short urls point to.
pub const BASE_URL: &'static str = "https://tier.app";

/// The body of a create request.
pub struct CreateURL {
    pub url: String,
}

/// The query of a search request.
pub struct QueryStringExtractor {
    pub url: String,
}

/// The answer to a create or search request: the full short url.
pub struct URLResponse {
    pub shortened: String,
}

/// The short url of a code: `BASE_URL`, a slash, then the code.
pub open spec fn response_url(code: Seq<char>) -> Seq<char> {
    BASE_URL@ + seq!['/'] + code
}

/// A short url is `https://`, the host `tier.app`, then the path: a slash and the code.
pub proof fn lemma_response_url_parts(code: Seq<char>)
    ensures
        response_url(code) == "https://"@ + "tier.app"@ + "/"@ + code,
{
    reveal_strlit("https://tier.app");
    reveal_strlit("https://");
    reveal_strlit("tier.app");
    reveal_strlit("/");
    assert(response_url(code) =~= "https://"@ + "tier.app"@ + "/"@ + code);
}

/// Two short urls are equal exactly when their codes are: the answer tells the code apart.
pub proof fn lemma_response_url_injective(a: Seq<char>, b: Seq<char>)
    ensures
        response_url(a) == response_url(b) <==> a == b,
{
    let k: int = BASE_URL@.len() as int + 1;
    assert(response_url(a).skip(k) =~= a);
    assert(response_url(b).skip(k) =~= b);
}

/// Whether `validator::validate_url` accepts a text.
pub uninterp spec fn valid_url(s: Seq<char>) -> bool;

/// The text of `validator::ValidationErrors` holding one error with `code` on `field`, whose
/// `value` parameter is `value`.
pub uninterp spec fn validation_text(field: Seq<char>, code: Seq<char>, value: Seq<char>) -> Seq<char>;

/// Calls `validator::validate_url`, which holds a text to be a url when `url::Url::parse`
/// accepts it. The result is named, not stated.
#[verifier::external_body]
fn is_url(s: &str) -> (b: bool)
    ensures
        b == valid_url(s@),
{
    validator::validate_url(s)
}

/// Calls `to_string` on the `validator::ValidationErrors` that the `Validate` derive builds when
/// `field` fails the check `code`: one `ValidationError::new(code)` with the parameter `value`,
/// added under `field`. The text is named, not stated.
#[verifier::external_body]
fn validation_message(field: &'static str, code: &'static str, value: &str) -> (text: String)
    ensures
        text@ == validation_text(field@, code@, value@),
{
    let mut err = validator::ValidationError::new(code);
    err.add_param(std::borrow::Cow::from("value"), &value);
    let mut errors = validator::ValidationErrors::new();
    errors.add(field, err);
    errors.to_string()
}

impl URLResponse {
    /// The answer for the short code `shortened`.
    pub fn from(shortened: String) -> (r: URLResponse)
        ensures
            r.shortened@ == response_url(shortened@),
    {
        let text = String::from_str(BASE_URL).concat("/").concat(shortened.as_str());
        proof {
            reveal_strlit("/");
        }
        assert(text@ =~= response_url(shortened@));
        URLResponse { shortened: text }
    }
}

/// A new record for `url` under a fresh random id, with the short code of that id.
pub fn shorten(url: String) -> (u: Url)
    ensures
        u.url == url,
        is_v4_id(u.id),
        u.shortened@ == code_of(u.id),
        u.shortened@ == base62(u.id as nat).take(CODE_LEN as int),
        u.shortened@.len() == CODE_LEN,
        forall|i: int| 0 <= i < u.shortened@.len() ==> is_base62_char(#[trigger] u.shortened@[i]),
{
    let id: u128 = new_v4_id();
    proof {
        lemma_v4_code_len(id);
    }
    let shortened = short_code(id);
    Url::new(id, url, shortened)
}

/// The first half of a create request: the url is checked, then shortened into the record to
/// insert. A text that is not a url is a bad request, with validator's text of the failure.
pub fn create(body: CreateURL) -> (r: Result<Url, Error>)
    ensures
        r is Ok <==> valid_url(body.url@),
        r matches Ok(u) ==> {
            &&& u.url == body.url
            &&& is_v4_id(u.id)
            &&& u.shortened@ == code_of(u.id)
            &&& u.shortened@ == base62(u.id as nat).take(CODE_LEN as int)
            &&& u.shortened@.len() == CODE_LEN
        },
        r matches Err(e) ==> e matches Error::BadRequest(m) && m@ == validation_text(
            "url"@,
            "url"@,
            body.url@,
        ),
{
    if !is_url(body.url.as_str()) {
        return Err(Error::BadRequest(validation_message("url", "url", body.url.as_str())));
    }
    Ok(shorten(body.url))
}

/// The second half of a create request: the answer, given how inserting the record went (the
/// stored short code, or the failure).
pub fn create_reply(inserted: Result<String, DbFailure>) -> (r: Result<URLResponse, Error>)
    ensures
        match inserted {
            Ok(s) => r matches Ok(resp) && resp.shortened@ == response_url(s@),
            Err(f) => r matches Err(e) && is_db_error(e, f),
        },
{
    match inserted {
        Ok(s) => Ok(URLResponse::from(s)),
        Err(f) => Err(Error::from(f)),
    }
}

/// Where a search request stands. The whole search runs in one transaction.
pub enum SearchState {
    /// The url's row is being looked up.
    Selecting,
    /// The visit counter of the url is being created, unless it exists.
    Recording { url_id: u128, shortened: String },
    /// The visit counter is being incremented.
    Counting { shortened: String },
    /// The request is answered.
    Finished,
}

/// The statement a search asks the database to run next, or its answer.
pub enum SearchCommand {
    /// Select the id and short code of the url.
    Select(String),
    /// Insert the counter, doing nothing if the url already has one.
    InsertVisit(Visit),
    /// Add one to the counter of the url with this id.
    IncrementCount(u128),
    /// Answer the request; an error rolls the transaction back.
    Reply(Result<URLResponse, Error>),
}

/// How the last statement went.
pub enum SearchEvent {
    /// The outcome of `Select`: the row's id and short code.
    Selected(Result<(u128, String), DbFailure>),
    /// The outcome of `InsertVisit` or `IncrementCount`: the number of rows touched.
    Executed(Result<usize, DbFailure>),
}

/// The event that answers the command issued in `state`.
pub open spec fn expects(state: SearchState, event: SearchEvent) -> bool {
    match state {
        SearchState::Selecting => event is Selected,
        SearchState::Recording { .. } => event is Executed,
        SearchState::Counting { .. } => event is Executed,
        SearchState::Finished => false,
    }
}

/// The command issued on entering `state` is the one `state` waits for.
pub open spec fn issues(state: SearchState, command: SearchCommand) -> bool {
    match state {
        SearchState::Selecting => command is Select,
        SearchState::Recording { url_id, .. } => command == SearchCommand::InsertVisit(
            Visit { url_id, count: 0 },
        ),
        SearchState::Counting { .. } => command is IncrementCount,
        SearchState::Finished => command is Reply,
    }
}

/// A search request starts by looking the url up.
pub fn search(query: QueryStringExtractor) -> (next: (SearchState, SearchCommand))
    ensures
        next.0 == SearchState::Selecting,
        next.1 == SearchCommand::Select(query.url),
{
    (SearchState::Selecting, SearchCommand::Select(query.url))
}

/// One step of a search: from the outcome of the last statement, the next one or the answer.
/// A found url gets its counter created if needed and then incremented, and is answered with
/// its short url; the first failure ends the search with the error it is answered with.
pub fn search_step(state: SearchState, event: SearchEvent) -> (next: (SearchState, SearchCommand))
    requires
        expects(state, event),
    ensures
        issues(next.0, next.1),
        match (state, event) {
            (SearchState::Selecting, SearchEvent::Selected(Ok((id, s)))) => {
                &&& next.0 == SearchState::Recording { url_id: id, shortened: s }
                &&& next.1 == SearchCommand::InsertVisit(Visit { url_id: id, count: 0 })
            },
            (SearchState::Recording { url_id, shortened }, SearchEvent::Executed(Ok(_))) => {
                &&& next.0 == SearchState::Counting { shortened }
                &&& next.1 == SearchCommand::IncrementCount(url_id)
            },
            (SearchState::Counting { shortened }, SearchEvent::Executed(Ok(_))) => {
                &&& next.0 == SearchState::Finished
                &&& next.1 matches SearchCommand::Reply(Ok(resp))
                &&& resp.shortened@ == response_url(shortened@)
            },
            (_, SearchEvent::Selected(Err(f))) => {
                &&& next.0 == SearchState::Finished
                &&& next.1 matches SearchCommand::Reply(Err(e))
                &&& is_db_error(e, f)
            },
            (_, SearchEvent::Executed(Err(f))) => {
                &&& next.0 == SearchState::Finished
                &&& next.1 matches SearchCommand::Reply(Err(e))
                &&& is_db_error(e, f)
            },
            _ => false,
        },
{
    match event {
        SearchEvent::Selected(Ok((id, s))) => (
            SearchState::Recording { url_id: id, shortened: s },
            SearchCommand::InsertVisit(Visit::new(id)),
        ),
        SearchEvent::Selected(Err(f)) => (
            SearchState::Finished,
            SearchCommand::Reply(Err(Error::from(f))),
        ),
        SearchEvent::Executed(Err(f)) => (
            SearchState::Finished,
            SearchCommand::Reply(Err(Error::from(f))),
        ),
        SearchEvent::Executed(Ok(_)) => match state {
            SearchState::Recording { url_id, shortened } => (
                SearchState::Counting { shortened },
                SearchCommand::IncrementCount(url_id),
            ),
            SearchState::Counting { shortened } => (
                SearchState::Finished,
                SearchCommand::Reply(Ok(URLResponse::from(shortened))),
            ),
            _ => (SearchState::Finished, SearchCommand::Reply(Err(Error::InternalServerError))),
        },
    }
}

} // verus!
