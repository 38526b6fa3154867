//! The Python package index: rendering of package documents and search results.
use vstd::prelude::*;
use crate::cache::{DocCache, read_back};
use crate::request::{Request, n_candidates};
use crate::session::{Step, Pending, Outcome, Resolution, begin, resume, resume_rendered, started, resumed, page_after_rendering, is_done};
use crate::request::key_of;
use crate::json::{opt_text, Json, field, field_of, text_of, str_field, items_of, members_of, get_str};
use crate::markdown::{labeled, push_labeled, pieces, lemma_pieces_step, contains, str_contains};
use crate::npm::{hit_heading, or_default, push_or, push_hit_heading};
use crate::text::has_prefix;

verus! {

/// The author line: the name, with the address in parentheses when there is one.
pub open spec fn author_line(author: Option<Seq<char>>, email: Option<Seq<char>>) -> Seq<char> {
    match (author, email) {
        (Some(a), Some(e)) => "**Author:** "@ + a + " ("@ + e + ")\n\n"@,
        (Some(a), None) => "**Author:** "@ + a + "\n\n"@,
        _ => Seq::empty(),
    }
}

/// A bullet line for a string element of a list.
pub open spec fn bullet(i: int, j: Json) -> Seq<char> {
    match j {
        Json::Str(s) => "- "@ + s@ + "\n"@,
        _ => Seq::empty(),
    }
}

/// A bulleted list under `title`, when the list is present.
pub open spec fn bullet_section(title: Seq<char>, items: Option<Seq<Json>>) -> Seq<char> {
    match items {
        Some(xs) => title + pieces(xs, |i: int, j: Json| bullet(i, j)) + "\n"@,
        None => Seq::empty(),
    }
}

/// A project link line, for a link whose address is a string.
pub open spec fn project_link(i: int, m: (String, Json)) -> Seq<char> {
    match m.1 {
        Json::Str(u) => "- "@ + m.0@ + ": "@ + u@ + "\n"@,
        _ => Seq::empty(),
    }
}

/// The project links section, when the document has a table of links.
pub open spec fn links_section(links: Option<Seq<(String, Json)>>) -> Seq<char> {
    match links {
        Some(ls) => "**Project Links:**\n\n"@ + pieces(ls, |i: int, m: (String, Json)| project_link(i, m)) + "\n"@,
        None => Seq::empty(),
    }
}

/// Whether a declared content type names markdown.
pub open spec fn is_markdown_type(t: Option<Seq<char>>) -> bool {
    match t {
        Some(s) => contains(s, "markdown"@) || contains(s, "md"@),
        None => false,
    }
}

/// Whether a declared content type names HTML.
pub open spec fn is_html_type(t: Option<Seq<char>>) -> bool {
    match t {
        Some(s) => contains(s, "text/html"@) || contains(s, "html"@),
        None => false,
    }
}

/// The long description: kept as it is when it is markdown, replaced by
/// `rendered` (its markdown rendering) when it is HTML, and fenced as a code
/// block otherwise.
pub open spec fn description_section(
    d: Option<Seq<char>>,
    content_type: Option<Seq<char>>,
    rendered: Seq<char>,
) -> Seq<char> {
    match d {
        Some(text) => "## Description\n\n"@ + if is_markdown_type(content_type) {
            text
        } else if is_html_type(content_type) {
            rendered
        } else {
            "```\n"@ + text + "\n```\n"@
        },
        None => Seq::empty(),
    }
}

/// The pointer to the full documentation, from the project links or else from
/// the documentation address.
pub open spec fn documentation_section(info: Option<Json>) -> Seq<char> {
    match info {
        Some(i) => match text_of(field_of(field(i, "project_urls"@), "Documentation"@)) {
            Some(u) => "\n## Documentation\n\nFor full documentation, visit: "@ + u + "\n\n"@,
            None => match str_field(i, "documentation_url"@) {
                Some(u) => "\n## Documentation\n\nFor full documentation, visit: "@ + u + "\n\n"@,
                None => Seq::empty(),
            },
        },
        None => Seq::empty(),
    }
}

/// The sections rendered from the `info` member of a package document.
pub open spec fn info_sections(info: Json, rendered: Seq<char>) -> Seq<char> {
    labeled("**Version:** "@, str_field(info, "version"@))
        + labeled(""@, str_field(info, "summary"@))
        + author_line(str_field(info, "author"@), str_field(info, "author_email"@))
        + labeled("**Homepage:** "@, str_field(info, "home_page"@))
        + labeled("**License:** "@, str_field(info, "license"@))
        + bullet_section("**Classifiers:**\n\n"@, items_of(field(info, "classifiers"@)))
        + links_section(members_of(field(info, "project_urls"@)))
        + description_section(str_field(info, "description"@), str_field(info, "description_content_type"@), rendered)
        + bullet_section("\n## Requirements\n\n"@, items_of(field(info, "requires_dist"@)))
}

/// The markdown page of package `name` rendered from its index document `doc`,
/// where `rendered` is the markdown rendering of an HTML long description.
pub open spec fn package_markdown(name: Seq<char>, doc: Json, rendered: Seq<char>) -> Seq<char> {
    "# "@ + name + "\n\n"@ + match field(doc, "info"@) {
        Some(info) => info_sections(info, rendered),
        None => Seq::empty(),
    } + documentation_section(field(doc, "info"@))
}

/// The long description of a package document when it is declared as HTML (and
/// not as markdown): the text that needs a markdown rendering.
pub open spec fn html_description(doc: Json) -> Option<Seq<char>> {
    match field(doc, "info"@) {
        Some(info) => {
            let t = str_field(info, "description_content_type"@);
            match str_field(info, "description"@) {
                Some(d) => if !is_markdown_type(t) && is_html_type(t) {
                    Some(d)
                } else {
                    None
                },
                None => None,
            }
        },
        None => None,
    }
}

/// Computes `html_description`.
pub fn find_html_description(doc: &Json) -> (r: Option<String>)
    ensures
        opt_string_view(r) == html_description(*doc),
{
    match doc.get("info") {
        Some(info) => {
            let (is_md, is_html) = content_kind(get_str(Some(info), "description_content_type"));
            match get_str(Some(info), "description") {
                Some(d) => if !is_md && is_html {
                    Some(d.clone())
                } else {
                    None
                },
                None => None,
            }
        },
        None => None,
    }
}

/// The text of an optional string.
pub open spec fn opt_string_view(o: Option<String>) -> Option<Seq<char>> {
    match o {
        Some(s) => Some(s@),
        None => None,
    }
}

fn push_bullets(out: &mut String, title: &str, list: Option<&Json>)
    ensures
        final(out)@ == old(out)@ + bullet_section(
            title@,
            items_of(
                match list {
                    Some(l) => Some(*l),
                    None => None,
                },
            ),
        ),
{
    let items = match list {
        Some(l) => l.as_array(),
        None => None,
    };
    match items {
        Some(xs) => {
            let ghost f = |i: int, j: Json| bullet(i, j);
            out.append(title);
            let ghost start = out@;
            let mut i: usize = 0;
            while i < xs.len()
                invariant
                    f == (|i: int, j: Json| bullet(i, j)),
                    i <= xs@.len(),
                    out@ == start + pieces(xs@.subrange(0, i as int), f),
                decreases xs@.len() - i,
            {
                proof {
                    lemma_pieces_step(xs@, i as int, f);
                }
                let ghost before = out@;
                if let Some(x) = xs[i].as_str() {
                    out.append("- ");
                    out.append(x.as_str());
                    out.append("\n");
                }
                assert(out@ =~= before + f(i as int, xs@[i as int]));
                i = i + 1;
            }
            out.append("\n");
            assert(xs@.subrange(0, xs@.len() as int) =~= xs@);
            assert(final(out)@ =~= old(out)@ + bullet_section(title@, Some(xs@)));
        },
        None => {
            assert(old(out)@ + Seq::<char>::empty() =~= old(out)@);
        },
    }
}

fn push_project_links(out: &mut String, links: Option<&Json>)
    ensures
        final(out)@ == old(out)@ + links_section(
            members_of(
                match links {
                    Some(l) => Some(*l),
                    None => None,
                },
            ),
        ),
{
    let members = match links {
        Some(l) => l.as_object(),
        None => None,
    };
    match members {
        Some(ls) => {
            let ghost f = |i: int, m: (String, Json)| project_link(i, m);
            out.append("**Project Links:**\n\n");
            let ghost start = out@;
            let mut i: usize = 0;
            while i < ls.len()
                invariant
                    f == (|i: int, m: (String, Json)| project_link(i, m)),
                    i <= ls@.len(),
                    out@ == start + pieces(ls@.subrange(0, i as int), f),
                decreases ls@.len() - i,
            {
                proof {
                    lemma_pieces_step(ls@, i as int, f);
                }
                let ghost before = out@;
                let (link_name, link_url) = &ls[i];
                if let Some(u) = link_url.as_str() {
                    out.append("- ");
                    out.append(link_name.as_str());
                    out.append(": ");
                    out.append(u.as_str());
                    out.append("\n");
                }
                assert(out@ =~= before + f(i as int, ls@[i as int]));
                i = i + 1;
            }
            out.append("\n");
            assert(ls@.subrange(0, ls@.len() as int) =~= ls@);
            assert(final(out)@ =~= old(out)@ + links_section(Some(ls@)));
        },
        None => {
            assert(old(out)@ + Seq::<char>::empty() =~= old(out)@);
        },
    }
}

fn push_author(out: &mut String, author: Option<&String>, email: Option<&String>)
    ensures
        final(out)@ == old(out)@ + author_line(opt_text(author), opt_text(email)),
{
    match author {
        Some(a) => {
            out.append("**Author:** ");
            out.append(a.as_str());
            match email {
                Some(e) => {
                    out.append(" (");
                    out.append(e.as_str());
                    out.append(")\n\n");
                },
                None => {
                    out.append("\n\n");
                },
            }
        },
        None => {},
    }
    assert(final(out)@ =~= old(out)@ + author_line(opt_text(author), opt_text(email)));
}

/// Decides `is_markdown_type` and `is_html_type`.
fn content_kind(t: Option<&String>) -> (r: (bool, bool))
    ensures
        r.0 == is_markdown_type(opt_text(t)),
        r.1 == is_html_type(opt_text(t)),
{
    match t {
        Some(s) => (
            str_contains(s.as_str(), "markdown") || str_contains(s.as_str(), "md"),
            str_contains(s.as_str(), "text/html") || str_contains(s.as_str(), "html"),
        ),
        None => (false, false),
    }
}

fn push_description(out: &mut String, d: Option<&String>, content_type: Option<&String>, rendered: &str)
    ensures
        final(out)@ == old(out)@ + description_section(opt_text(d), opt_text(content_type), rendered@),
{
    match d {
        Some(text) => {
            out.append("## Description\n\n");
            let (is_md, is_html) = content_kind(content_type);
            if is_md {
                out.append(text.as_str());
            } else if is_html {
                out.append(rendered);
            } else {
                out.append("```\n");
                out.append(text.as_str());
                out.append("\n```\n");
            }
        },
        None => {},
    }
    assert(final(out)@ =~= old(out)@ + description_section(opt_text(d), opt_text(content_type), rendered@));
}

fn push_documentation(out: &mut String, info: Option<&Json>)
    ensures
        final(out)@ == old(out)@ + documentation_section(
            match info {
                Some(i) => Some(*i),
                None => None,
            },
        ),
{
    match info {
        Some(i) => {
            let from_links = get_str(i.get("project_urls"), "Documentation");
            let url = match from_links {
                Some(u) => Some(u),
                None => get_str(Some(i), "documentation_url"),
            };
            match url {
                Some(u) => {
                    out.append("\n## Documentation\n\nFor full documentation, visit: ");
                    out.append(u.as_str());
                    out.append("\n\n");
                },
                None => {},
            }
        },
        None => {},
    }
    assert(final(out)@ =~= old(out)@ + documentation_section(
        match info {
            Some(i) => Some(*i),
            None => None,
        },
    ));
}

proof fn lemma_assoc(a: Seq<char>, b: Seq<char>, c: Seq<char>)
    ensures
        (a + b) + c == a + (b + c),
{
    assert((a + b) + c =~= a + (b + c));
}

fn push_info(out: &mut String, info: &Json, rendered: &str)
    ensures
        final(out)@ == old(out)@ + info_sections(*info, rendered@),
{
    let ghost o = old(out)@;
    let ghost j = *info;
    push_labeled(out, "**Version:** ", get_str(Some(info), "version"));
    let ghost s1 = labeled("**Version:** "@, str_field(j, "version"@));
    push_labeled(out, "", get_str(Some(info), "summary"));
    let ghost s2 = s1 + labeled(""@, str_field(j, "summary"@));
    proof { lemma_assoc(o, s1, labeled(""@, str_field(j, "summary"@))); }
    push_author(out, get_str(Some(info), "author"), get_str(Some(info), "author_email"));
    let ghost part3 = author_line(str_field(j, "author"@), str_field(j, "author_email"@));
    proof { lemma_assoc(o, s2, part3); }
    let ghost s3 = s2 + part3;
    push_labeled(out, "**Homepage:** ", get_str(Some(info), "home_page"));
    let ghost part4 = labeled("**Homepage:** "@, str_field(j, "home_page"@));
    proof { lemma_assoc(o, s3, part4); }
    let ghost s4 = s3 + part4;
    push_labeled(out, "**License:** ", get_str(Some(info), "license"));
    let ghost part5 = labeled("**License:** "@, str_field(j, "license"@));
    proof { lemma_assoc(o, s4, part5); }
    let ghost s5 = s4 + part5;
    push_bullets(out, "**Classifiers:**\n\n", info.get("classifiers"));
    let ghost part6 = bullet_section("**Classifiers:**\n\n"@, items_of(field(j, "classifiers"@)));
    proof { lemma_assoc(o, s5, part6); }
    let ghost s6 = s5 + part6;
    push_project_links(out, info.get("project_urls"));
    let ghost part7 = links_section(members_of(field(j, "project_urls"@)));
    proof { lemma_assoc(o, s6, part7); }
    let ghost s7 = s6 + part7;
    push_description(out, get_str(Some(info), "description"), get_str(Some(info), "description_content_type"), rendered);
    let ghost part8 = description_section(str_field(j, "description"@), str_field(j, "description_content_type"@), rendered@);
    proof { lemma_assoc(o, s7, part8); }
    let ghost s8 = s7 + part8;
    push_bullets(out, "\n## Requirements\n\n", info.get("requires_dist"));
    let ghost part9 = bullet_section("\n## Requirements\n\n"@, items_of(field(j, "requires_dist"@)));
    proof { lemma_assoc(o, s8, part9); }
}

/// Renders the index document `doc` of package `name` as markdown; `rendered`
/// stands for an HTML long description.
pub fn render_package(name: &str, doc: &Json, rendered: &str) -> (r: String)
    ensures
        r@ == package_markdown(name@, *doc, rendered@),
{
    let mut md = String::from_str("# ");
    md.append(name);
    md.append("\n\n");
    let ghost head = md@;
    let info = doc.get("info");
    match info {
        Some(i) => push_info(&mut md, i, rendered),
        None => {},
    }
    let ghost mid = md@;
    assert(mid =~= head + match field(*doc, "info"@) {
        Some(info) => info_sections(info, rendered@),
        None => Seq::empty(),
    });
    push_documentation(&mut md, info);
    md
}

/// The entry of the `i`-th search result.
pub open spec fn search_entry(i: int, hit: Json) -> Seq<char> {
    let name = or_default(str_field(hit, "name"@), "Unknown"@);
    hit_heading(i, name, or_default(str_field(hit, "version"@), "Unknown"@)) + or_default(
        str_field(hit, "description"@),
        "No description"@,
    ) + "\n\n"@ + "- [PyPI Page]("@ + ("https://pypi.org/project/"@ + name) + ")\n\n"@
}

/// The markdown listing of the index's search answer `doc` for `query`, holding at
/// most `limit` results.
pub open spec fn search_markdown(query: Seq<char>, limit: u32, doc: Json) -> Seq<char> {
    "# PyPI Search Results for '"@ + query + "'\n\n"@ + match items_of(field(doc, "results"@)) {
        Some(hits) => pieces(
            if hits.len() <= limit { hits } else { hits.take(limit as int) },
            |i: int, h: Json| search_entry(i, h),
        ),
        None => "No packages found.\n"@,
    }
}

fn push_search_entry(out: &mut String, i: usize, hit: &Json)
    requires
        i < usize::MAX,
    ensures
        final(out)@ == old(out)@ + search_entry(i as int, *hit),
{
    let ghost o = old(out)@;
    let name = get_str(Some(hit), "name");
    push_hit_heading(out, i, name, get_str(Some(hit), "version"));
    push_or(out, get_str(Some(hit), "description"), "No description");
    out.append("\n\n");
    out.append("- [PyPI Page](");
    let ghost before_url = out@;
    out.append("https://pypi.org/project/");
    push_or(out, name, "Unknown");
    let ghost after_url = out@;
    out.append(")\n\n");
    assert(after_url =~= before_url + ("https://pypi.org/project/"@ + or_default(opt_text(name), "Unknown"@)));
    assert(final(out)@ =~= o + search_entry(i as int, *hit));
}

/// Renders the index's search answer `doc` for `query` as a numbered markdown
/// listing of at most `limit` results.
pub fn render_search(query: &str, limit: u32, doc: &Json) -> (r: String)
    ensures
        r@ == search_markdown(query@, limit, *doc),
{
    let mut md = String::from_str("# PyPI Search Results for '");
    md.append(query);
    md.append("'\n\n");
    let ghost head = md@;
    let hits = match doc.get("results") {
        Some(o) => o.as_array(),
        None => None,
    };
    match hits {
        Some(hs) => {
            let ghost f = |i: int, h: Json| search_entry(i, h);
            let n: usize = if hs.len() <= limit as usize { hs.len() } else { limit as usize };
            let ghost shown = if hs@.len() <= limit { hs@ } else { hs@.take(limit as int) };
            assert(shown.len() == n);
            let mut i: usize = 0;
            while i < n
                invariant
                    f == (|i: int, h: Json| search_entry(i, h)),
                    shown.len() == n,
                    n <= hs@.len(),
                    forall|j: int| 0 <= j < n ==> shown[j] == hs@[j],
                    i <= n,
                    md@ == head + pieces(shown.subrange(0, i as int), f),
                decreases n - i,
            {
                proof {
                    lemma_pieces_step(shown, i as int, f);
                }
                let ghost before = md@;
                push_search_entry(&mut md, i, &hs[i]);
                assert(md@ =~= before + f(i as int, shown[i as int]));
                i = i + 1;
            }
            assert(shown.subrange(0, n as int) =~= shown);
        },
        None => {
            md.append("No packages found.\n");
        },
    }
    assert(md@ =~= search_markdown(query@, limit, *doc));
    md
}


/// A search answer listing `hits` renders as its header followed by one entry per
/// hit kept, in the answer's order, keeping the first `limit`; the entry of the
/// `i`-th hit opens with its rank `i + 1`, its name and its version.
pub proof fn lemma_search_lists_each_hit(query: Seq<char>, limit: u32, doc: Json, hits: Seq<Json>)
    requires
        items_of(field(doc, "results"@)) == Some(hits),
    ensures
        search_markdown(query, limit, doc) == "# PyPI Search Results for '"@ + query + "'\n\n"@ + pieces(
            if hits.len() <= limit { hits } else { hits.take(limit as int) },
            |i: int, h: Json| search_entry(i, h),
        ),
        forall|i: int|
            0 <= i < hits.len() ==> has_prefix(
                #[trigger] search_entry(i, hits[i]),
                hit_heading(
                    i,
                    or_default(str_field(hits[i], "name"@), "Unknown"@),
                    or_default(str_field(hits[i], "version"@), "Unknown"@),
                ),
            ),
{
    assert forall|i: int| 0 <= i < hits.len() implies has_prefix(
        #[trigger] search_entry(i, hits[i]),
        hit_heading(
            i,
            or_default(str_field(hits[i], "name"@), "Unknown"@),
            or_default(str_field(hits[i], "version"@), "Unknown"@),
        ),
    ) by {
        let h = hit_heading(
            i,
            or_default(str_field(hits[i], "name"@), "Unknown"@),
            or_default(str_field(hits[i], "version"@), "Unknown"@),
        );
        let e = search_entry(i, hits[i]);
        assert(e.subrange(0, h.len() as int) =~= h);
    }
}

/// Client of the Python package index, with a cache of its own.
#[derive(Clone)]
pub struct PyPIClient {
    cache: DocCache,
}

impl View for PyPIClient {
    type V = Map<Seq<char>, Seq<char>>;

    closed spec fn view(&self) -> Map<Seq<char>, Seq<char>> {
        self.cache@
    }
}

impl PyPIClient {
    /// The cache is well formed.
    pub closed spec fn wf(&self) -> bool {
        self.cache.wf()
    }

    /// A client with an empty cache.
    pub fn new() -> (r: PyPIClient)
        ensures
            r.wf(),
            r@ == Map::<Seq<char>, Seq<char>>::empty(),
    {
        PyPIClient { cache: DocCache::new() }
    }

    /// The client's cache.
    pub fn cache_ref(&self) -> (r: &DocCache)
        ensures
            r@ == self@,
            r.wf() == self.wf(),
    {
        &self.cache
    }

    /// The text cached under `key`.
    pub fn get_cache(&self, key: &str) -> (r: Option<String>)
        requires
            self.wf(),
        ensures
            read_back(r, self@, key@),
    {
        self.cache.get(key)
    }

    /// Caches `value` under `key`.
    pub fn set_cache(&mut self, key: String, value: String)
        requires
            old(self).wf(),
        ensures
            final(self).wf(),
            final(self)@ == old(self)@.insert(key@, value@),
    {
        self.cache.set(key, value)
    }

    /// Continues a call of this client with the answer to its pending fetch.
    pub fn resume(&mut self, pending: Pending, outcome: Outcome) -> (s: Step)
        requires
            old(self).wf(),
            pending.attempt < n_candidates(pending.request),
        ensures
            final(self).wf(),
            resumed(s, old(self)@, final(self)@, pending, outcome),
    {
        resume(&mut self.cache, pending, outcome)
    }

    /// Finishes a package lookup whose HTML long description the caller rendered.
    pub fn resume_rendered(&mut self, pending: Pending, doc: Json, rendering: Result<String, String>) -> (s: Step)
        requires
            old(self).wf(),
            pending.request is LookupPypi,
        ensures
            final(self).wf(),
            match page_after_rendering(pending.request, doc, rendering) {
                Resolution::Text(t) => is_done(s, Ok(t)) && final(self)@ == old(self)@.insert(key_of(pending.request), t),
                Resolution::Error(kind, m) => is_done(s, Err((kind, m))) && final(self)@ == old(self)@,
                _ => false,
            },
    {
        resume_rendered(&mut self.cache, pending, doc, rendering)
    }

    /// Starts a lookup of a package, at a version or the latest.
    pub fn lookup_package(&self, package_name: String, version: Option<String>) -> (s: Step)
        requires
            self.wf(),
        ensures
            started(s, self@, Request::LookupPypi { package_name, version }),
    {
        begin(&self.cache, Request::LookupPypi { package_name, version })
    }

    /// Starts a search of the index; when its JSON answer fails, the result page is read instead.
    pub fn search_packages(&self, query: String, limit: Option<u32>) -> (s: Step)
        requires
            self.wf(),
        ensures
            started(s, self@, Request::SearchPypi { query, limit }),
    {
        begin(&self.cache, Request::SearchPypi { query, limit })
    }
}

} // verus!
