//! The JavaScript package registry: rendering of package documents and search results.
use vstd::prelude::*;
use crate::cache::{DocCache, read_back};
use crate::request::{Request, n_candidates};
use crate::session::{Step, Pending, Outcome, begin, resume, started, resumed};
use crate::json::{Json, field, field_of, text_of, str_field, items_of, members_of, get_str};
use crate::markdown::{labeled, push_labeled, pieces, lemma_pieces_step};
use crate::text::{decimal, push_decimal, has_prefix};

verus! {

/// One keyword of the keyword list: a comma before every string keyword but
/// the one at the front of the list.
pub open spec fn keyword_piece(i: int, k: Json) -> Seq<char> {
    match k {
        Json::Str(s) => if i > 0 { ", "@ + s@ } else { s@ },
        _ => Seq::empty(),
    }
}

/// The keyword line, when the document has a keyword list.
pub open spec fn keywords_section(items: Option<Seq<Json>>) -> Seq<char> {
    match items {
        Some(ks) => "**Keywords:** "@ + pieces(ks, |i: int, k: Json| keyword_piece(i, k)) + "\n\n"@,
        None => Seq::empty(),
    }
}

/// One dependency line, for a dependency whose version requirement is a string.
pub open spec fn dependency_line(i: int, d: (String, Json)) -> Seq<char> {
    match d.1 {
        Json::Str(v) => "- **"@ + d.0@ + "**: "@ + v@ + "\n"@,
        _ => Seq::empty(),
    }
}

/// A dependency section under `title`, when the document has that table.
pub open spec fn dependency_section(title: Seq<char>, deps: Option<Seq<(String, Json)>>) -> Seq<char> {
    match deps {
        Some(ds) => title + pieces(ds, |i: int, d: (String, Json)| dependency_line(i, d)) + "\n"@,
        None => Seq::empty(),
    }
}

/// The readme section, when the document has one.
pub open spec fn readme_section(readme: Option<Seq<char>>) -> Seq<char> {
    match readme {
        Some(r) => "## Documentation\n\n"@ + r,
        None => Seq::empty(),
    }
}

/// The markdown page of package `name` rendered from its registry document `doc`.
pub open spec fn package_markdown(name: Seq<char>, doc: Json) -> Seq<char> {
    "# "@ + name + "\n\n"@
        + labeled("**Version:** "@, str_field(doc, "version"@))
        + labeled(""@, str_field(doc, "description"@))
        + keywords_section(items_of(field(doc, "keywords"@)))
        + labeled("**Homepage:** "@, str_field(doc, "homepage"@))
        + labeled("**Repository:** "@, text_of(field_of(field(doc, "repository"@), "url"@)))
        + labeled("**License:** "@, str_field(doc, "license"@))
        + dependency_section("## Dependencies\n\n"@, members_of(field(doc, "dependencies"@)))
        + dependency_section("## Dev Dependencies\n\n"@, members_of(field(doc, "devDependencies"@)))
        + readme_section(str_field(doc, "readme"@))
}

fn push_keywords(out: &mut String, keywords: Option<&Json>)
    ensures
        final(out)@ == old(out)@ + keywords_section(items_of(
            match keywords {
                Some(k) => Some(*k),
                None => None,
            },
        )),
{
    let items = match keywords {
        Some(k) => k.as_array(),
        None => None,
    };
    match items {
        Some(ks) => {
            let ghost f = |i: int, k: Json| keyword_piece(i, k);
            out.append("**Keywords:** ");
            let ghost start = out@;
            let mut i: usize = 0;
            while i < ks.len()
                invariant
                    f == (|i: int, k: Json| keyword_piece(i, k)),
                    i <= ks@.len(),
                    out@ == start + pieces(ks@.subrange(0, i as int), f),
                decreases ks@.len() - i,
            {
                proof {
                    lemma_pieces_step(ks@, i as int, f);
                }
                let ghost before = out@;
                if let Some(k) = ks[i].as_str() {
                    if i > 0 {
                        out.append(", ");
                    }
                    out.append(k.as_str());
                    assert(out@ =~= before + f(i as int, ks@[i as int]));
                } else {
                    assert(out@ =~= before + f(i as int, ks@[i as int]));
                }
                i = i + 1;
            }
            out.append("\n\n");
            assert(ks@.subrange(0, ks@.len() as int) =~= ks@);
            assert(final(out)@ =~= old(out)@ + keywords_section(Some(ks@)));
        },
        None => {
            assert(old(out)@ + Seq::<char>::empty() =~= old(out)@);
        },
    }
}

fn push_dependencies(out: &mut String, title: &str, deps: Option<&Json>)
    ensures
        final(out)@ == old(out)@ + dependency_section(
            title@,
            members_of(
                match deps {
                    Some(d) => Some(*d),
                    None => None,
                },
            ),
        ),
{
    let members = match deps {
        Some(d) => d.as_object(),
        None => None,
    };
    match members {
        Some(ds) => {
            let ghost f = |i: int, d: (String, Json)| dependency_line(i, d);
            out.append(title);
            let ghost start = out@;
            let mut i: usize = 0;
            while i < ds.len()
                invariant
                    f == (|i: int, d: (String, Json)| dependency_line(i, d)),
                    i <= ds@.len(),
                    out@ == start + pieces(ds@.subrange(0, i as int), f),
                decreases ds@.len() - i,
            {
                proof {
                    lemma_pieces_step(ds@, i as int, f);
                }
                let ghost before = out@;
                let (dep_name, dep_version) = &ds[i];
                if let Some(v) = dep_version.as_str() {
                    out.append("- **");
                    out.append(dep_name.as_str());
                    out.append("**: ");
                    out.append(v.as_str());
                    out.append("\n");
                }
                assert(out@ =~= before + f(i as int, ds@[i as int]));
                i = i + 1;
            }
            out.append("\n");
            assert(ds@.subrange(0, ds@.len() as int) =~= ds@);
            assert(final(out)@ =~= old(out)@ + dependency_section(title@, Some(ds@)));
        },
        None => {
            assert(old(out)@ + Seq::<char>::empty() =~= old(out)@);
        },
    }
}

/// Renders the registry document `doc` of package `name` as markdown.
pub fn render_package(name: &str, doc: &Json) -> (r: String)
    ensures
        r@ == package_markdown(name@, *doc),
{
    let mut md = String::from_str("# ");
    md.append(name);
    md.append("\n\n");
    push_labeled(&mut md, "**Version:** ", get_str(Some(doc), "version"));
    push_labeled(&mut md, "", get_str(Some(doc), "description"));
    push_keywords(&mut md, doc.get("keywords"));
    push_labeled(&mut md, "**Homepage:** ", get_str(Some(doc), "homepage"));
    push_labeled(&mut md, "**Repository:** ", get_str(doc.get("repository"), "url"));
    push_labeled(&mut md, "**License:** ", get_str(Some(doc), "license"));
    push_dependencies(&mut md, "## Dependencies\n\n", doc.get("dependencies"));
    push_dependencies(&mut md, "## Dev Dependencies\n\n", doc.get("devDependencies"));
    let ghost p1 = md@;
    match get_str(Some(doc), "readme") {
        Some(readme) => {
            md.append("## Documentation\n\n");
            md.append(readme.as_str());
            assert(md@ =~= p1 + readme_section(str_field(*doc, "readme"@)));
        },
        None => {
            assert(md@ =~= p1 + readme_section(str_field(*doc, "readme"@)));
        },
    }
    md
}

/// The text of `v`, or `default` when it is absent.
pub open spec fn or_default(v: Option<Seq<char>>, default: Seq<char>) -> Seq<char> {
    match v {
        Some(s) => s,
        None => default,
    }
}

/// A link line with the given label, when the address is present.
pub open spec fn link_line(label: Seq<char>, url: Option<Seq<char>>) -> Seq<char> {
    match url {
        Some(u) => "- ["@ + label + "]("@ + u + ")\n"@,
        None => Seq::empty(),
    }
}

/// The link lines of a search hit, when it has a links member.
pub open spec fn links_block(links: Option<Json>) -> Seq<char> {
    match links {
        Some(l) => link_line("NPM"@, str_field(l, "npm"@)) + link_line("Homepage"@, str_field(l, "homepage"@))
            + link_line("Repository"@, str_field(l, "repository"@)) + "\n"@,
        None => Seq::empty(),
    }
}

/// The heading of the `i`-th hit (counted from zero): its rank, name and version.
pub open spec fn hit_heading(i: int, name: Seq<char>, version: Seq<char>) -> Seq<char> {
    "## "@ + decimal((i + 1) as nat) + ". "@ + name + " (v"@ + version + ")\n\n"@
}

/// The entry of the `i`-th search hit, when it describes a package.
pub open spec fn search_entry(i: int, hit: Json) -> Seq<char> {
    match field(hit, "package"@) {
        Some(info) => hit_heading(
            i,
            or_default(str_field(info, "name"@), "Unknown"@),
            or_default(str_field(info, "version"@), "Unknown"@),
        ) + or_default(str_field(info, "description"@), "No description"@) + "\n\n"@ + links_block(
            field(info, "links"@),
        ),
        None => Seq::empty(),
    }
}

/// The markdown listing of the registry's search answer `doc` for `query`.
pub open spec fn search_markdown(query: Seq<char>, doc: Json) -> Seq<char> {
    "# NPM Search Results for '"@ + query + "'\n\n"@ + match items_of(field(doc, "objects"@)) {
        Some(hits) => pieces(hits, |i: int, h: Json| search_entry(i, h)),
        None => "No packages found.\n"@,
    }
}

/// Appends the value of `v`, or `default` when it is absent.
pub fn push_or(out: &mut String, v: Option<&String>, default: &str)
    ensures
        final(out)@ == old(out)@ + or_default(
            match v {
                Some(s) => Some(s@),
                None => None,
            },
            default@,
        ),
{
    match v {
        Some(s) => out.append(s.as_str()),
        None => out.append(default),
    }
}

/// Appends the heading of the `i`-th hit.
pub fn push_hit_heading(out: &mut String, i: usize, name: Option<&String>, version: Option<&String>)
    requires
        i < usize::MAX,
    ensures
        final(out)@ == old(out)@ + hit_heading(
            i as int,
            or_default(
                match name {
                    Some(s) => Some(s@),
                    None => None,
                },
                "Unknown"@,
            ),
            or_default(
                match version {
                    Some(s) => Some(s@),
                    None => None,
                },
                "Unknown"@,
            ),
        ),
{
    let ghost o = old(out)@;
    out.append("## ");
    push_decimal(out, (i + 1) as u64);
    out.append(". ");
    push_or(out, name, "Unknown");
    out.append(" (v");
    push_or(out, version, "Unknown");
    out.append(")\n\n");
    assert(final(out)@ =~= o + hit_heading(
        i as int,
        or_default(
            match name {
                Some(s) => Some(s@),
                None => None,
            },
            "Unknown"@,
        ),
        or_default(
            match version {
                Some(s) => Some(s@),
                None => None,
            },
            "Unknown"@,
        ),
    ));
}

fn push_link(out: &mut String, label: &str, url: Option<&String>)
    ensures
        final(out)@ == old(out)@ + link_line(
            label@,
            match url {
                Some(s) => Some(s@),
                None => None,
            },
        ),
{
    match url {
        Some(u) => {
            out.append("- [");
            out.append(label);
            out.append("](");
            out.append(u.as_str());
            out.append(")\n");
            assert(final(out)@ =~= old(out)@ + ("- ["@ + label@ + "]("@ + u@ + ")\n"@));
        },
        None => {
            assert(old(out)@ + Seq::<char>::empty() =~= old(out)@);
        },
    }
}

#[verifier::rlimit(40)]
fn push_search_entry(out: &mut String, i: usize, hit: &Json)
    requires
        i < usize::MAX,
    ensures
        final(out)@ == old(out)@ + search_entry(i as int, *hit),
{
    let ghost o = old(out)@;
    match hit.get("package") {
        Some(info) => {
            push_hit_heading(out, i, get_str(Some(info), "name"), get_str(Some(info), "version"));
            push_or(out, get_str(Some(info), "description"), "No description");
            out.append("\n\n");
            let ghost mid = out@;
            match info.get("links") {
                Some(links) => {
                    push_link(out, "NPM", get_str(Some(links), "npm"));
                    push_link(out, "Homepage", get_str(Some(links), "homepage"));
                    push_link(out, "Repository", get_str(Some(links), "repository"));
                    out.append("\n");
                },
                None => {},
            }
            assert(out@ =~= mid + links_block(field(*info, "links"@)));
        },
        None => {
            assert(o + Seq::<char>::empty() =~= o);
        },
    }
}

/// Renders the registry's search answer `doc` for `query` as a numbered markdown listing.
pub fn render_search(query: &str, doc: &Json) -> (r: String)
    ensures
        r@ == search_markdown(query@, *doc),
{
    let mut md = String::from_str("# NPM Search Results for '");
    md.append(query);
    md.append("'\n\n");
    let ghost head = md@;
    let hits = match doc.get("objects") {
        Some(o) => o.as_array(),
        None => None,
    };
    match hits {
        Some(hs) => {
            let ghost f = |i: int, h: Json| search_entry(i, h);
            let mut i: usize = 0;
            while i < hs.len()
                invariant
                    f == (|i: int, h: Json| search_entry(i, h)),
                    i <= hs@.len(),
                    md@ == head + pieces(hs@.subrange(0, i as int), f),
                decreases hs@.len() - i,
            {
                proof {
                    lemma_pieces_step(hs@, i as int, f);
                }
                let ghost before = md@;
                push_search_entry(&mut md, i, &hs[i]);
                assert(md@ =~= before + f(i as int, hs@[i as int]));
                i = i + 1;
            }
            assert(hs@.subrange(0, hs@.len() as int) =~= hs@);
        },
        None => {
            md.append("No packages found.\n");
        },
    }
    assert(md@ =~= search_markdown(query@, *doc));
    md
}


/// The name shown for a search hit that describes a package.
pub open spec fn hit_name(hit: Json) -> Seq<char> {
    or_default(str_field(field(hit, "package"@)->0, "name"@), "Unknown"@)
}

/// The version shown for a search hit that describes a package.
pub open spec fn hit_version(hit: Json) -> Seq<char> {
    or_default(str_field(field(hit, "package"@)->0, "version"@), "Unknown"@)
}

/// A search answer listing `hits` renders as its header followed by one entry per
/// hit, in the answer's order; the entry of the `i`-th hit that describes a
/// package opens with its rank `i + 1`, its name and its version.
pub proof fn lemma_search_lists_each_hit(query: Seq<char>, doc: Json, hits: Seq<Json>)
    requires
        items_of(field(doc, "objects"@)) == Some(hits),
    ensures
        search_markdown(query, doc) == "# NPM Search Results for '"@ + query + "'\n\n"@ + pieces(
            hits,
            |i: int, h: Json| search_entry(i, h),
        ),
        forall|i: int|
            0 <= i < hits.len() && (#[trigger] field(hits[i], "package"@)) is Some ==> has_prefix(
                search_entry(i, hits[i]),
                hit_heading(i, hit_name(hits[i]), hit_version(hits[i])),
            ),
{
    assert forall|i: int|
        0 <= i < hits.len() && (#[trigger] field(hits[i], "package"@)) is Some implies has_prefix(
            search_entry(i, hits[i]),
            hit_heading(i, hit_name(hits[i]), hit_version(hits[i])),
        ) by {
        let h = hit_heading(i, hit_name(hits[i]), hit_version(hits[i]));
        let e = search_entry(i, hits[i]);
        assert(e.subrange(0, h.len() as int) =~= h);
    }
}

/// Client of the JavaScript package registry, with a cache of its own.
#[derive(Clone)]
pub struct NpmClient {
    cache: DocCache,
}

impl View for NpmClient {
    type V = Map<Seq<char>, Seq<char>>;

    closed spec fn view(&self) -> Map<Seq<char>, Seq<char>> {
        self.cache@
    }
}

impl NpmClient {
    /// The cache is well formed.
    pub closed spec fn wf(&self) -> bool {
        self.cache.wf()
    }

    /// A client with an empty cache.
    pub fn new() -> (r: NpmClient)
        ensures
            r.wf(),
            r@ == Map::<Seq<char>, Seq<char>>::empty(),
    {
        NpmClient { cache: DocCache::new() }
    }

    /// The client's cache.
    pub fn cache_ref(&self) -> (r: &DocCache)
        ensures
            r@ == self@,
            r.wf() == self.wf(),
    {
        &self.cache
    }

    /// The text cached under `key`.
    pub fn get_cache(&self, key: &str) -> (r: Option<String>)
        requires
            self.wf(),
        ensures
            read_back(r, self@, key@),
    {
        self.cache.get(key)
    }

    /// Caches `value` under `key`.
    pub fn set_cache(&mut self, key: String, value: String)
        requires
            old(self).wf(),
        ensures
            final(self).wf(),
            final(self)@ == old(self)@.insert(key@, value@),
    {
        self.cache.set(key, value)
    }

    /// Continues a call of this client with the answer to its pending fetch.
    pub fn resume(&mut self, pending: Pending, outcome: Outcome) -> (s: Step)
        requires
            old(self).wf(),
            pending.attempt < n_candidates(pending.request),
        ensures
            final(self).wf(),
            resumed(s, old(self)@, final(self)@, pending, outcome),
    {
        resume(&mut self.cache, pending, outcome)
    }

    /// Starts a lookup of a package, at a version or the latest.
    pub fn lookup_package(&self, package_name: String, version: Option<String>) -> (s: Step)
        requires
            self.wf(),
        ensures
            started(s, self@, Request::LookupNpm { package_name, version }),
    {
        begin(&self.cache, Request::LookupNpm { package_name, version })
    }

    /// Starts a search of the registry.
    pub fn search_packages(&self, query: String, limit: Option<u32>) -> (s: Step)
        requires
            self.wf(),
        ensures
            started(s, self@, Request::SearchNpm { query, limit }),
    {
        begin(&self.cache, Request::SearchNpm { query, limit })
    }
}

} // verus!
