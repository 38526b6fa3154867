//! The decisions of one tool call: consult the cache, choose what to fetch,
//! judge each answer, normalise it, remember it.  The caller performs the fetches
//! and renders HTML as markdown where a step asks for it.
use vstd::prelude::*;
use crate::cache::DocCache;
use crate::error::{ErrorKind, ToolError, result_view};
use crate::json::Json;
use crate::request::{string_opt_view, Request, key_of, cache_key, url_of, fetch_url, n_candidates, candidate_count, clamp_limit, effective_limit};
use crate::text::{opens_with_brace, starts_with_brace};
use crate::npm;
use crate::pypi;

verus! {

/// An HTTP GET the caller is asked to perform.
#[derive(Clone, Debug)]
pub struct FetchRequest {
    pub url: String,
    pub user_agent: String,
    /// Whether the answer's body is wanted as markdown, in `Outcome::Response::markdown`.
    pub render_html: bool,
}

/// What came of a fetch.
#[derive(Debug)]
pub enum Outcome {
    /// The request could not be sent or answered; the transport's message.
    Transport(String),
    /// An answer arrived.  `status_text` is the status as it is displayed
    /// (`404 Not Found`).  `body` is the text of the body, or why it could not be
    /// read; `json` is that text decoded as JSON, or why it could not be;
    /// `markdown` is that text rendered from HTML as markdown when the fetch asked
    /// for it, or why it was not.
    Response {
        status: u16,
        status_text: String,
        body: Result<String, String>,
        json: Result<Json, String>,
        markdown: Result<String, String>,
    },
}

/// How one answer is judged.
pub enum Resolution {
    /// The normalised text of the call.
    Text(Seq<char>),
    /// The call fails with this error.
    Error(ErrorKind, Seq<char>),
    /// The next candidate address is tried; the failure is remembered.
    Next(Seq<char>),
    /// This HTML long description must be rendered as markdown before the page is.
    Render(Seq<char>),
}

/// Whether the body fetched at attempt `attempt` of `r` is wanted as markdown:
/// it is for every HTML page, and not for the JSON documents and the raw list.
pub open spec fn wants_markdown(r: Request, attempt: nat) -> bool {
    match r {
        Request::ListDevdocs | Request::LookupNpm { .. } | Request::SearchNpm { .. } | Request::LookupPypi { .. } => false,
        Request::SearchPypi { .. } => attempt != 0,
        _ => true,
    }
}

/// Computes `wants_markdown`.
pub fn render_wanted(r: &Request, attempt: usize) -> (b: bool)
    ensures
        b == wants_markdown(*r, attempt as nat),
{
    match r {
        Request::ListDevdocs | Request::LookupNpm { .. } | Request::SearchNpm { .. } | Request::LookupPypi { .. } => false,
        Request::SearchPypi { .. } => attempt != 0,
        _ => true,
    }
}

/// The words that open the message of HTML that could not be rendered.
pub open spec fn conversion_failure(e: Seq<char>) -> Resolution {
    Resolution::Error(ErrorKind::ExecutionError, "Failed to convert HTML to markdown: "@ + e)
}

/// The text of a page rendered as markdown, or the failure to render it.
pub open spec fn markdown_text(markdown: Result<String, String>) -> Resolution {
    match markdown {
        Ok(m) => Resolution::Text(m@),
        Err(e) => conversion_failure(e@),
    }
}

/// The agent string announced to each upstream service.
pub open spec fn agent_of(r: Request) -> Seq<char> {
    match r {
        Request::LookupCrate { .. } | Request::SearchCrates { .. } | Request::LookupItem { .. } =>
            "CodeNav/0.1.0 (https://github.com/HikaruEgashira/codenav-mcp)"@,
        Request::LookupGo { .. } | Request::SearchGo { .. } | Request::LookupGoItem { .. } => "CodeNav/0.1.0"@,
        _ => "CodeNav-MCP/0.1.0"@,
    }
}

/// Computes `agent_of`.
pub fn user_agent(r: &Request) -> (a: &'static str)
    ensures
        a@ == agent_of(*r),
{
    match r {
        Request::LookupCrate { .. } | Request::SearchCrates { .. } | Request::LookupItem { .. } =>
            "CodeNav/0.1.0 (https://github.com/HikaruEgashira/codenav-mcp)",
        Request::LookupGo { .. } | Request::SearchGo { .. } | Request::LookupGoItem { .. } => "CodeNav/0.1.0",
        _ => "CodeNav-MCP/0.1.0",
    }
}

/// The words that open the message of a failed fetch.
pub open spec fn failure_prefix(r: Request) -> Seq<char> {
    match r {
        Request::LookupCrate { .. } => "Failed to fetch documentation"@,
        Request::SearchCrates { .. } => "Failed to search crates.io"@,
        Request::LookupItem { .. } => "Failed to fetch item documentation"@,
        Request::ListDevdocs => "Failed to fetch DevDocs list"@,
        Request::GetDevdocs { .. } => "Failed to fetch DevDocs documentation"@,
        Request::SearchDevdocs { .. } => "Failed to search DevDocs"@,
        Request::LookupNpm { .. } => "Failed to fetch npm package"@,
        Request::SearchNpm { .. } => "Failed to search npm packages"@,
        Request::LookupPypi { .. } => "Failed to fetch PyPI package"@,
        Request::SearchPypi { .. } => "Failed to search PyPI packages"@,
        Request::LookupGo { .. } => "Failed to fetch Go package documentation"@,
        Request::SearchGo { .. } => "Failed to search Go packages"@,
        Request::LookupGoItem { .. } => "Failed to fetch Go item documentation"@,
    }
}

fn failure_prefix_of(r: &Request) -> (p: &'static str)
    ensures
        p@ == failure_prefix(*r),
{
    match r {
        Request::LookupCrate { .. } => "Failed to fetch documentation",
        Request::SearchCrates { .. } => "Failed to search crates.io",
        Request::LookupItem { .. } => "Failed to fetch item documentation",
        Request::ListDevdocs => "Failed to fetch DevDocs list",
        Request::GetDevdocs { .. } => "Failed to fetch DevDocs documentation",
        Request::SearchDevdocs { .. } => "Failed to search DevDocs",
        Request::LookupNpm { .. } => "Failed to fetch npm package",
        Request::SearchNpm { .. } => "Failed to search npm packages",
        Request::LookupPypi { .. } => "Failed to fetch PyPI package",
        Request::SearchPypi { .. } => "Failed to search PyPI packages",
        Request::LookupGo { .. } => "Failed to fetch Go package documentation",
        Request::SearchGo { .. } => "Failed to search Go packages",
        Request::LookupGoItem { .. } => "Failed to fetch Go item documentation",
    }
}

/// The words that open the message of a body that could not be read.
pub open spec fn read_failure_prefix(r: Request) -> Seq<char> {
    match r {
        Request::ListDevdocs => "Failed to read response: "@,
        _ => "Failed to read response body: "@,
    }
}

/// Whether a status code is a success (2xx).
pub open spec fn is_success(status: u16) -> bool {
    200 <= status && status <= 299
}

/// The text of an answer whose body was read, or the error that the body gives.
pub open spec fn rendered(
    r: Request,
    attempt: nat,
    body: Seq<char>,
    json: Result<Json, String>,
    markdown: Result<String, String>,
) -> Resolution {
    match r {
        Request::SearchCrates { .. } => if opens_with_brace(body) {
            Resolution::Text(body)
        } else {
            markdown_text(markdown)
        },
        Request::ListDevdocs => Resolution::Text(body),
        Request::LookupNpm { package_name, .. } => match json {
            Ok(doc) => Resolution::Text(npm::package_markdown(package_name@, doc)),
            Err(e) => Resolution::Error(ErrorKind::ExecutionError, "Failed to parse JSON: "@ + e@),
        },
        Request::SearchNpm { query, .. } => match json {
            Ok(doc) => Resolution::Text(npm::search_markdown(query@, doc)),
            Err(e) => Resolution::Error(ErrorKind::ExecutionError, "Failed to parse JSON: "@ + e@),
        },
        Request::LookupPypi { package_name, .. } => match json {
            Ok(doc) => match pypi::html_description(doc) {
                Some(d) => Resolution::Render(d),
                None => Resolution::Text(pypi::package_markdown(package_name@, doc, ""@)),
            },
            Err(e) => Resolution::Error(ErrorKind::ExecutionError, "Failed to parse JSON: "@ + e@),
        },
        Request::SearchPypi { query, limit } => if attempt == 0 {
            match json {
                Ok(doc) => Resolution::Text(pypi::search_markdown(query@, clamp_limit(limit), doc)),
                Err(e) => Resolution::Next(e@),
            }
        } else {
            markdown_text(markdown)
        },
        _ => markdown_text(markdown),
    }
}

/// How the answer `o` to attempt `attempt` of request `r` is judged.
pub open spec fn verdict_of(r: Request, attempt: nat, o: Outcome) -> Resolution {
    match o {
        Outcome::Transport(m) => if r is LookupItem {
            Resolution::Next(m@)
        } else if r is SearchPypi && attempt == 0 {
            Resolution::Next(m@)
        } else {
            Resolution::Error(ErrorKind::ExecutionError, failure_prefix(r) + ": "@ + m@)
        },
        Outcome::Response { status, status_text, body, json, markdown } => if !is_success(status) {
            if r is LookupItem {
                Resolution::Next("Status code: "@ + status_text@)
            } else if r is SearchPypi && attempt == 0 {
                Resolution::Next(status_text@)
            } else {
                Resolution::Error(ErrorKind::ExecutionError, failure_prefix(r) + ". Status: "@ + status_text@)
            }
        } else {
            match body {
                Err(e) => Resolution::Error(ErrorKind::ExecutionError, read_failure_prefix(r) + e@),
                Ok(b) => rendered(r, attempt, b@, json, markdown),
            }
        },
    }
}

/// The message when every candidate address has failed.
pub open spec fn exhausted_message(last: Option<Seq<char>>) -> Seq<char> {
    "Failed to fetch item documentation. No matching item found. Last error: "@ + match last {
        Some(e) => e,
        None => "Unknown error"@,
    }
}

/// A call that waits for the answer to one fetch, or for one rendering.
#[derive(Clone, Debug)]
pub struct Pending {
    pub request: Request,
    pub attempt: usize,
    pub last_error: Option<String>,
}

/// What to do next: the call is over, one more fetch is needed, or an HTML
/// long description of a package document must be rendered as markdown (the
/// document is handed back with the rendering, to `resume_rendered`).
#[derive(Debug)]
pub enum Step {
    Done(Result<String, ToolError>),
    Fetch(Pending, FetchRequest),
    Render(Pending, Json, String),
}

/// `s` asks for attempt `attempt` of `r`, with `last` as the remembered failure.
pub open spec fn is_fetch(s: Step, r: Request, attempt: nat, last: Option<Seq<char>>) -> bool {
    match s {
        Step::Fetch(p, f) => {
            &&& p.request == r
            &&& p.attempt == attempt
            &&& string_opt_view(p.last_error) == last
            &&& f.url@ == url_of(r, attempt)
            &&& f.user_agent@ == agent_of(r)
            &&& f.render_html == wants_markdown(r, attempt)
        },
        _ => false,
    }
}

/// `s` ends the call with `res`.
pub open spec fn is_done(s: Step, res: Result<Seq<char>, (ErrorKind, Seq<char>)>) -> bool {
    match s {
        Step::Done(x) => result_view(x) == res,
        _ => false,
    }
}

/// `s` is how a call of `r` starts against a cache holding `c`: with the stored
/// text when the key is there, else with a fetch of the first candidate.
pub open spec fn started(s: Step, c: Map<Seq<char>, Seq<char>>, r: Request) -> bool {
    if c.contains_key(key_of(r)) {
        is_done(s, Ok(c[key_of(r)]))
    } else {
        is_fetch(s, r, 0, None)
    }
}

/// `s` is how `pending` continues after `outcome`, the cache going from `c0` to
/// `c1`: a text is returned and stored under the request's key, an error is
/// returned, the next candidate is fetched while one is left, or a description
/// in the answer's document is handed out to be rendered.
pub open spec fn resumed(
    s: Step,
    c0: Map<Seq<char>, Seq<char>>,
    c1: Map<Seq<char>, Seq<char>>,
    pending: Pending,
    outcome: Outcome,
) -> bool {
    match verdict_of(pending.request, pending.attempt as nat, outcome) {
        Resolution::Text(t) => {
            &&& is_done(s, Ok(t))
            &&& c1 == c0.insert(key_of(pending.request), t)
        },
        Resolution::Error(kind, m) => is_done(s, Err((kind, m))) && c1 == c0,
        Resolution::Next(e) => {
            &&& c1 == c0
            &&& if pending.attempt + 1 < n_candidates(pending.request) {
                is_fetch(s, pending.request, (pending.attempt + 1) as nat, Some(e))
            } else {
                is_done(s, Err((ErrorKind::ExecutionError, exhausted_message(Some(e)))))
            }
        },
        Resolution::Render(h) => {
            &&& c1 == c0
            &&& match (s, outcome) {
                (Step::Render(p, doc, html), Outcome::Response { json: Ok(d), .. }) => {
                    &&& p.request == pending.request
                    &&& p.attempt == pending.attempt
                    &&& doc == d
                    &&& html@ == h
                },
                _ => false,
            }
        },
    }
}

/// The page of a package document once its HTML description was rendered, or
/// the failure to render it.
pub open spec fn page_after_rendering(r: Request, doc: Json, rendering: Result<String, String>) -> Resolution {
    match (r, rendering) {
        (Request::LookupPypi { package_name, .. }, Ok(md)) => Resolution::Text(
            pypi::package_markdown(package_name@, doc, md@),
        ),
        (_, Err(e)) => conversion_failure(e@),
        _ => Resolution::Error(ErrorKind::ExecutionError, "no rendering was asked for"@),
    }
}

fn fetch_step(request: Request, attempt: usize, last_error: Option<String>) -> (s: Step)
    requires
        attempt < n_candidates(request),
    ensures
        is_fetch(s, request, attempt as nat, string_opt_view(last_error)),
{
    let url = fetch_url(&request, attempt);
    let agent = String::from_str(user_agent(&request));
    let render_html = render_wanted(&request, attempt);
    Step::Fetch(Pending { request, attempt, last_error }, FetchRequest { url, user_agent: agent, render_html })
}

/// Starts a call: answers from the cache when the request's key is stored there,
/// and otherwise asks for its first candidate address.
pub fn begin(cache: &DocCache, request: Request) -> (s: Step)
    requires
        cache.wf(),
    ensures
        started(s, cache@, request),
{
    let k = cache_key(&request);
    match cache.get(k.as_str()) {
        Some(text) => Step::Done(Ok(text)),
        None => fetch_step(request, 0, None),
    }
}

/// A judged answer: the text, the error, the failure to remember before the next
/// candidate, or the HTML to render first.
pub enum Verdict {
    Ready(String),
    Failed(ToolError),
    TryNext(String),
    NeedsRendering(String),
}

impl View for Verdict {
    type V = Resolution;

    open spec fn view(&self) -> Resolution {
        match self {
            Verdict::Ready(t) => Resolution::Text(t@),
            Verdict::Failed(e) => Resolution::Error(e@.0, e@.1),
            Verdict::TryNext(m) => Resolution::Next(m@),
            Verdict::NeedsRendering(h) => Resolution::Render(h@),
        }
    }
}

fn exec_failure(prefix: &str, detail: &str) -> (e: ToolError)
    ensures
        e@ == (ErrorKind::ExecutionError, prefix@ + detail@),
{
    let mut m = String::from_str(prefix);
    m.append(detail);
    ToolError::ExecutionError(m)
}

fn exec_error(prefix: &str, middle: &str, detail: &str) -> (e: ToolError)
    ensures
        e@ == (ErrorKind::ExecutionError, prefix@ + middle@ + detail@),
{
    let mut m = String::from_str(prefix);
    m.append(middle);
    m.append(detail);
    ToolError::ExecutionError(m)
}

/// The text of a page rendered as markdown, or the failure to render it.
fn markdown_verdict(markdown: &Result<String, String>) -> (v: Verdict)
    ensures
        v@ == markdown_text(*markdown),
{
    match markdown {
        Ok(m) => Verdict::Ready(m.clone()),
        Err(e) => Verdict::Failed(exec_failure("Failed to convert HTML to markdown: ", e.as_str())),
    }
}

/// Normalises a body that was read, as `rendered` says.
pub fn render(
    r: &Request,
    attempt: usize,
    body: &str,
    json: &Result<Json, String>,
    markdown: &Result<String, String>,
) -> (v: Verdict)
    ensures
        v@ == rendered(*r, attempt as nat, body@, *json, *markdown),
{
    match r {
        Request::SearchCrates { .. } => if starts_with_brace(body) {
            Verdict::Ready(body.to_owned())
        } else {
            markdown_verdict(markdown)
        },
        Request::ListDevdocs => Verdict::Ready(body.to_owned()),
        Request::LookupNpm { package_name, .. } => match json {
            Ok(doc) => Verdict::Ready(npm::render_package(package_name.as_str(), doc)),
            Err(e) => Verdict::Failed(exec_failure("Failed to parse JSON: ", e.as_str())),
        },
        Request::SearchNpm { query, .. } => match json {
            Ok(doc) => Verdict::Ready(npm::render_search(query.as_str(), doc)),
            Err(e) => Verdict::Failed(exec_failure("Failed to parse JSON: ", e.as_str())),
        },
        Request::LookupPypi { package_name, .. } => match json {
            Ok(doc) => match pypi::find_html_description(doc) {
                Some(d) => Verdict::NeedsRendering(d),
                None => Verdict::Ready(pypi::render_package(package_name.as_str(), doc, "")),
            },
            Err(e) => Verdict::Failed(exec_failure("Failed to parse JSON: ", e.as_str())),
        },
        Request::SearchPypi { query, limit } => if attempt == 0 {
            match json {
                Ok(doc) => Verdict::Ready(pypi::render_search(query.as_str(), effective_limit(*limit), doc)),
                Err(e) => Verdict::TryNext(e.clone()),
            }
        } else {
            markdown_verdict(markdown)
        },
        _ => markdown_verdict(markdown),
    }
}

/// Judges an answer, as `verdict_of` says.
pub fn judge(r: &Request, attempt: usize, o: &Outcome) -> (v: Verdict)
    ensures
        v@ == verdict_of(*r, attempt as nat, *o),
{
    match o {
        Outcome::Transport(m) => if let Request::LookupItem { .. } = r {
            Verdict::TryNext(m.clone())
        } else if matches!(r, Request::SearchPypi { .. }) && attempt == 0 {
            Verdict::TryNext(m.clone())
        } else {
            Verdict::Failed(exec_error(failure_prefix_of(r), ": ", m.as_str()))
        },
        Outcome::Response { status, status_text, body, json, markdown } => if !(200 <= *status && *status <= 299) {
            if let Request::LookupItem { .. } = r {
                let mut m = String::from_str("Status code: ");
                m.append(status_text.as_str());
                Verdict::TryNext(m)
            } else if matches!(r, Request::SearchPypi { .. }) && attempt == 0 {
                Verdict::TryNext(status_text.clone())
            } else {
                Verdict::Failed(exec_error(failure_prefix_of(r), ". Status: ", status_text.as_str()))
            }
        } else {
            match body {
                Err(e) => {
                    let prefix = if let Request::ListDevdocs = r {
                        "Failed to read response: "
                    } else {
                        "Failed to read response body: "
                    };
                    Verdict::Failed(exec_failure(prefix, e.as_str()))
                },
                Ok(b) => render(r, attempt, b.as_str(), json, markdown),
            }
        },
    }
}

/// Continues a call with the answer to its pending fetch: stores and returns the
/// normalised text, fails, or asks for the next candidate address.
pub fn resume(cache: &mut DocCache, pending: Pending, outcome: Outcome) -> (s: Step)
    requires
        old(cache).wf(),
        pending.attempt < n_candidates(pending.request),
    ensures
        final(cache).wf(),
        resumed(s, old(cache)@, final(cache)@, pending, outcome),
{
    let Pending { request, attempt, last_error } = pending;
    match judge(&request, attempt, &outcome) {
        Verdict::Ready(text) => {
            cache.set(cache_key(&request), text.clone());
            Step::Done(Ok(text))
        },
        Verdict::NeedsRendering(html) => match outcome {
            Outcome::Response { json: Ok(doc), .. } => Step::Render(
                Pending { request, attempt, last_error },
                doc,
                html,
            ),
            _ => Step::Done(Err(ToolError::ExecutionError(String::from_str("no document to render")))),
        },
        Verdict::Failed(e) => Step::Done(Err(e)),
        Verdict::TryNext(e) => {
            if attempt + 1 < candidate_count(&request) {
                fetch_step(request, attempt + 1, Some(e))
            } else {
                let mut m = String::from_str(
                    "Failed to fetch item documentation. No matching item found. Last error: ",
                );
                m.append(e.as_str());
                Step::Done(Err(ToolError::ExecutionError(m)))
            }
        },
    }
}

/// Finishes a package lookup whose HTML long description was rendered (or failed
/// to render) by the caller: stores and returns the page, or fails.
pub fn resume_rendered(cache: &mut DocCache, pending: Pending, doc: Json, rendering: Result<String, String>) -> (s: Step)
    requires
        old(cache).wf(),
        pending.request is LookupPypi,
    ensures
        final(cache).wf(),
        match page_after_rendering(pending.request, doc, rendering) {
            Resolution::Text(t) => is_done(s, Ok(t)) && final(cache)@ == old(cache)@.insert(
                key_of(pending.request),
                t,
            ),
            Resolution::Error(kind, m) => is_done(s, Err((kind, m))) && final(cache)@ == old(cache)@,
            _ => false,
        },
{
    match rendering {
        Ok(md) => match &pending.request {
            Request::LookupPypi { package_name, .. } => {
                let page = pypi::render_package(package_name.as_str(), &doc, md.as_str());
                cache.set(cache_key(&pending.request), page.clone());
                Step::Done(Ok(page))
            },
            _ => Step::Done(Err(ToolError::ExecutionError(String::from_str("no rendering was asked for")))),
        },
        Err(e) => Step::Done(Err(exec_failure("Failed to convert HTML to markdown: ", e.as_str()))),
    }
}

/// Whether `o` is a failed answer: the transport failed or the status is not a success.
pub open spec fn is_failure(o: Outcome) -> bool {
    match o {
        Outcome::Transport(_) => true,
        Outcome::Response { status, .. } => !is_success(status),
    }
}

/// How a call of `r`, now at attempt `attempt`, ends when its fetches are
/// answered by `answers` in turn, as `resumed` directs: its result (none while
/// it still waits for an answer) and how many answers it used.
pub open spec fn drive(r: Request, attempt: nat, answers: Seq<Outcome>) -> (
    Option<Result<Seq<char>, (ErrorKind, Seq<char>)>>,
    nat,
)
    decreases answers.len(),
{
    if answers.len() == 0 {
        (None, 0)
    } else {
        match verdict_of(r, attempt, answers[0]) {
            Resolution::Text(t) => (Some(Ok(t)), 1),
            Resolution::Error(k, m) => (Some(Err((k, m))), 1),
            Resolution::Next(e) => if attempt + 1 < n_candidates(r) {
                let rest = drive(r, attempt + 1, answers.drop_first());
                (rest.0, rest.1 + 1)
            } else {
                (Some(Err((ErrorKind::ExecutionError, exhausted_message(Some(e))))), 1)
            },
            Resolution::Render(_) => (None, 1),
        }
    }
}

/// The markdown of a successful answer whose body was read and rendered.
pub open spec fn served_page(o: Outcome) -> Option<Seq<char>> {
    match o {
        Outcome::Response { status, body, markdown, .. } => if is_success(status) && body is Ok {
            match markdown {
                Ok(m) => Some(m@),
                Err(_) => None,
            }
        } else {
            None
        },
        _ => None,
    }
}

/// An item lookup at attempt `attempt` tries the remaining kinds strictly in the
/// declared order (attempt `i` fetches `url_of(r, i)`, the page of kind
/// `item_kinds()[i]`): when the first `k` answers fail and answer `k` serves a
/// page, the call returns that page's markdown and uses exactly `k + 1`
/// answers, so no later kind is tried.
pub proof fn lemma_first_success_wins(r: Request, attempt: nat, answers: Seq<Outcome>, k: int)
    requires
        r is LookupItem,
        0 <= k < answers.len(),
        attempt + k < n_candidates(r),
        forall|i: int| 0 <= i < k ==> is_failure(#[trigger] answers[i]),
        served_page(answers[k]) is Some,
    ensures
        drive(r, attempt, answers) == (
            Some(Ok::<Seq<char>, (ErrorKind, Seq<char>)>(served_page(answers[k])->0)),
            (k + 1) as nat,
        ),
    decreases k,
{
    if k == 0 {
        assert(verdict_of(r, attempt, answers[0]) == Resolution::Text(served_page(answers[0])->0));
    } else {
        assert(is_failure(answers[0]));
        assert(verdict_of(r, attempt, answers[0]) is Next);
        let rest = answers.drop_first();
        assert forall|i: int| 0 <= i < k - 1 implies is_failure(#[trigger] rest[i]) by {
            assert(rest[i] == answers[i + 1]);
        }
        assert(rest[k - 1] == answers[k]);
        lemma_first_success_wins(r, attempt + 1, rest, k - 1);
    }
}

/// Once a call has stored its text under its key, a later call whose request has
/// the same key is answered from the cache with that text, without a fetch.
pub proof fn lemma_stored_text_is_reused(
    s1: Step,
    c0: Map<Seq<char>, Seq<char>>,
    c1: Map<Seq<char>, Seq<char>>,
    pending: Pending,
    outcome: Outcome,
    s2: Step,
    again: Request,
)
    requires
        resumed(s1, c0, c1, pending, outcome),
        verdict_of(pending.request, pending.attempt as nat, outcome) is Text,
        key_of(again) == key_of(pending.request),
        started(s2, c1, again),
    ensures
        is_done(s2, Ok(verdict_of(pending.request, pending.attempt as nat, outcome)->Text_0)),
{
}

} // verus!
