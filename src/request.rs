//! The typed operations the tools perform, and for each one its cache key,
//! the addresses it fetches and the agent it announces.
use vstd::prelude::*;
use crate::text::{decimal, push_decimal, has_prefix, str_has_prefix, split_path, split_on_path_sep, join, join_with, views, lemma_split_path_nonempty};

verus! {

/// One operation of one provider, with its typed arguments.
#[derive(Clone, Debug)]
pub enum Request {
    LookupCrate { crate_name: String, version: Option<String> },
    SearchCrates { query: String, limit: Option<u32> },
    LookupItem { crate_name: String, item_path: String, version: Option<String> },
    ListDevdocs,
    GetDevdocs { slug: String, entry: Option<String> },
    SearchDevdocs { slug: String, query: String },
    LookupNpm { package_name: String, version: Option<String> },
    SearchNpm { query: String, limit: Option<u32> },
    LookupPypi { package_name: String, version: Option<String> },
    SearchPypi { query: String, limit: Option<u32> },
    LookupGo { package_name: String, version: Option<String> },
    SearchGo { query: String, limit: Option<u32> },
    LookupGoItem { package_name: String, item_path: String, version: Option<String> },
}

/// The default page size of a search.
pub const DEFAULT_LIMIT: u32 = 10;

/// The largest page size a search asks for.
pub const MAX_LIMIT: u32 = 100;

/// The page size a search asks for: the caller's, or ten, and never above a hundred.
pub open spec fn clamp_limit(limit: Option<u32>) -> u32 {
    let l = match limit {
        Some(n) => n,
        None => DEFAULT_LIMIT,
    };
    if l < MAX_LIMIT {
        l
    } else {
        MAX_LIMIT
    }
}

/// Computes `clamp_limit`.
pub fn effective_limit(limit: Option<u32>) -> (r: u32)
    ensures
        r == clamp_limit(limit),
{
    let l = match limit {
        Some(n) => n,
        None => DEFAULT_LIMIT,
    };
    if l < MAX_LIMIT {
        l
    } else {
        MAX_LIMIT
    }
}

/// `prefix` followed by `v` when `v` is present; nothing otherwise.
pub open spec fn opt_part(prefix: Seq<char>, v: Option<String>) -> Seq<char> {
    match v {
        Some(s) => prefix + s@,
        None => Seq::empty(),
    }
}

/// Appends `opt_part(prefix@, *v)` to `out`.
fn push_opt(out: &mut String, prefix: &str, v: &Option<String>)
    ensures
        final(out)@ == old(out)@ + opt_part(prefix@, *v),
{
    match v {
        Some(s) => {
            out.append(prefix);
            out.append(s.as_str());
            assert(final(out)@ =~= old(out)@ + opt_part(prefix@, *v));
        },
        None => {
            assert(old(out)@ + opt_part(prefix@, *v) =~= old(out)@);
        },
    }
}

/// The item path of a crate item lookup, without a leading `crate_name::`.
pub open spec fn item_path_in_crate(crate_name: Seq<char>, item_path: Seq<char>) -> Seq<char> {
    let p = crate_name + "::"@;
    if has_prefix(item_path, p) {
        item_path.subrange(p.len() as int, item_path.len() as int)
    } else {
        item_path
    }
}

/// Computes `item_path_in_crate`.
pub fn strip_crate_prefix(crate_name: &str, item_path: &str) -> (r: String)
    ensures
        r@ == item_path_in_crate(crate_name@, item_path@),
{
    let mut p = String::from_str(crate_name);
    p.append("::");
    if str_has_prefix(item_path, p.as_str()) {
        let n = item_path.unicode_len();
        let k = p.as_str().unicode_len();
        item_path.substring_char(k, n).to_owned()
    } else {
        item_path.to_owned()
    }
}

/// The cache key of a request: the provider's namespace, the identifier, then the
/// version, entry or search terms. The parts are not escaped, so identifiers that
/// themselves hold `:` (or a DevDocs slug named `list` or `search`) can share a
/// key with another request of the same provider.
pub open spec fn key_of(r: Request) -> Seq<char> {
    match r {
        Request::LookupCrate { crate_name, version } => crate_name@ + opt_part(":"@, version),
        Request::SearchCrates { query, limit } => "crates:search:"@ + query@ + ":"@ + decimal(clamp_limit(limit) as nat),
        Request::LookupItem { crate_name, item_path, version } => crate_name@ + opt_part(":"@, version) + ":"@ + item_path_in_crate(crate_name@, item_path@),
        Request::ListDevdocs => "devdocs:list"@,
        Request::GetDevdocs { slug, entry } => "devdocs:"@ + slug@ + opt_part(":"@, entry),
        Request::SearchDevdocs { slug, query } => "devdocs:search:"@ + slug@ + ":"@ + query@,
        Request::LookupNpm { package_name, version } => "npm:"@ + package_name@ + opt_part(":"@, version),
        Request::SearchNpm { query, limit } => "npm:search:"@ + query@ + ":"@ + decimal(clamp_limit(limit) as nat),
        Request::LookupPypi { package_name, version } => "pypi:"@ + package_name@ + opt_part(":"@, version),
        Request::SearchPypi { query, limit } => "pypi:search:"@ + query@ + ":"@ + decimal(clamp_limit(limit) as nat),
        Request::LookupGo { package_name, version } => "go:package:"@ + package_name@ + opt_part("@"@, version),
        Request::SearchGo { query, limit } => "go:search:"@ + query@ + ":"@ + decimal(clamp_limit(limit) as nat),
        Request::LookupGoItem { package_name, item_path, version } => "go:item:"@ + package_name@ + opt_part("@"@, version) + "#"@ + item_path@,
    }
}

/// Computes `key_of`.
pub fn cache_key(r: &Request) -> (k: String)
    ensures
        k@ == key_of(*r),
{
    match r {
        Request::LookupCrate { crate_name, version } => {
            let mut k = crate_name.clone();
            push_opt(&mut k, ":", version);
            k
        },
        Request::SearchCrates { query, limit } => {
            let mut k = String::from_str("crates:search:");
            k.append(query.as_str());
            k.append(":");
            push_decimal(&mut k, effective_limit(*limit) as u64);
            k
        },
        Request::LookupItem { crate_name, item_path, version } => {
            let path = strip_crate_prefix(crate_name.as_str(), item_path.as_str());
            let mut k = crate_name.clone();
            push_opt(&mut k, ":", version);
            k.append(":");
            k.append(path.as_str());
            k
        },
        Request::ListDevdocs => String::from_str("devdocs:list"),
        Request::GetDevdocs { slug, entry } => {
            let mut k = String::from_str("devdocs:");
            k.append(slug.as_str());
            push_opt(&mut k, ":", entry);
            k
        },
        Request::SearchDevdocs { slug, query } => {
            let mut k = String::from_str("devdocs:search:");
            k.append(slug.as_str());
            k.append(":");
            k.append(query.as_str());
            k
        },
        Request::LookupNpm { package_name, version } => {
            let mut k = String::from_str("npm:");
            k.append(package_name.as_str());
            push_opt(&mut k, ":", version);
            k
        },
        Request::SearchNpm { query, limit } => {
            let mut k = String::from_str("npm:search:");
            k.append(query.as_str());
            k.append(":");
            push_decimal(&mut k, effective_limit(*limit) as u64);
            k
        },
        Request::LookupPypi { package_name, version } => {
            let mut k = String::from_str("pypi:");
            k.append(package_name.as_str());
            push_opt(&mut k, ":", version);
            k
        },
        Request::SearchPypi { query, limit } => {
            let mut k = String::from_str("pypi:search:");
            k.append(query.as_str());
            k.append(":");
            push_decimal(&mut k, effective_limit(*limit) as u64);
            k
        },
        Request::LookupGo { package_name, version } => {
            let mut k = String::from_str("go:package:");
            k.append(package_name.as_str());
            push_opt(&mut k, "@", version);
            k
        },
        Request::SearchGo { query, limit } => {
            let mut k = String::from_str("go:search:");
            k.append(query.as_str());
            k.append(":");
            push_decimal(&mut k, effective_limit(*limit) as u64);
            k
        },
        Request::LookupGoItem { package_name, item_path, version } => {
            let mut k = String::from_str("go:item:");
            k.append(package_name.as_str());
            push_opt(&mut k, "@", version);
            k.append("#");
            k.append(item_path.as_str());
            k
        },
    }
}

/// The structural kinds an item lookup tries, in order.
pub open spec fn item_kinds() -> Seq<Seq<char>> {
    seq!["struct"@, "enum"@, "trait"@, "fn"@, "macro"@]
}

/// The kind tried at attempt `i` of an item lookup.
pub fn item_kind(i: usize) -> (r: &'static str)
    requires
        i < 5,
    ensures
        r@ == item_kinds()[i as int],
{
    if i == 0 {
        "struct"
    } else if i == 1 {
        "enum"
    } else if i == 2 {
        "trait"
    } else if i == 3 {
        "fn"
    } else {
        "macro"
    }
}

/// How many addresses a request may try: one per item kind for an item lookup,
/// the JSON endpoint and then the result page for a package-index search, and one
/// for every other request.
pub open spec fn n_candidates(r: Request) -> nat {
    match r {
        Request::LookupItem { .. } => 5,
        Request::SearchPypi { .. } => 2,
        _ => 1,
    }
}

/// Computes `n_candidates`.
pub fn candidate_count(r: &Request) -> (n: usize)
    ensures
        n == n_candidates(*r),
{
    match r {
        Request::LookupItem { .. } => 5,
        Request::SearchPypi { .. } => 2,
        _ => 1,
    }
}

/// The version segment of a docs.rs address.
pub open spec fn version_or_latest(version: Option<String>) -> Seq<char> {
    match version {
        Some(v) => v@,
        None => "latest"@,
    }
}

/// The module directories of an item path, each followed by a slash.
pub open spec fn module_dirs(path: Seq<char>) -> Seq<char> {
    let module = join(split_path(path).drop_last(), "/"@);
    if module.len() == 0 {
        Seq::empty()
    } else {
        module + "/"@
    }
}

/// The last piece of an item path: the item's own name.
pub open spec fn item_name(path: Seq<char>) -> Seq<char> {
    split_path(path).last()
}

/// The docs.rs page of item `path` of `crate_name`, assuming it has the given kind.
pub open spec fn item_url(crate_name: Seq<char>, version: Option<String>, path: Seq<char>, kind: Seq<char>) -> Seq<char> {
    "https://docs.rs/"@ + crate_name + "/"@ + version_or_latest(version) + "/"@ + crate_name + "/"@
        + module_dirs(path) + kind + "."@ + item_name(path) + ".html"@
}

/// The address fetched at attempt `attempt` of request `r`.
pub open spec fn url_of(r: Request, attempt: nat) -> Seq<char> {
    match r {
        Request::LookupCrate { crate_name, version } => "https://docs.rs/crate/"@ + crate_name@ + "/"@
            + opt_part(""@, version) + (if version is Some { "/"@ } else { Seq::empty() }),
        Request::SearchCrates { query, limit } => "https://crates.io/api/v1/crates?q="@ + query@
            + "&per_page="@ + decimal(clamp_limit(limit) as nat),
        Request::LookupItem { crate_name, item_path, version } => item_url(
            crate_name@,
            version,
            item_path_in_crate(crate_name@, item_path@),
            item_kinds()[attempt as int],
        ),
        Request::ListDevdocs => "https://devdocs.io/docs.json"@,
        Request::GetDevdocs { slug, entry } => "https://devdocs.io/"@ + slug@ + opt_part("/"@, entry),
        Request::SearchDevdocs { slug, query } => "https://devdocs.io/"@ + slug@ + "/?q="@ + query@,
        Request::LookupNpm { package_name, version } => "https://registry.npmjs.org/"@ + package_name@
            + opt_part("/"@, version),
        Request::SearchNpm { query, limit } => "https://registry.npmjs.org/-/v1/search?text="@ + query@
            + "&size="@ + decimal(clamp_limit(limit) as nat),
        Request::LookupPypi { package_name, version } => "https://pypi.org/pypi/"@ + package_name@
            + opt_part("/"@, version) + "/json"@,
        Request::SearchPypi { query, .. } => "https://pypi.org/search/?q="@ + query@ + (if attempt == 0 {
            "&format=json"@
        } else {
            Seq::empty()
        }),
        Request::LookupGo { package_name, version } => "https://pkg.go.dev/"@ + package_name@ + opt_part(
            "@"@,
            version,
        ),
        Request::SearchGo { query, limit } => "https://pkg.go.dev/search?q="@ + query@ + "&limit="@
            + decimal(clamp_limit(limit) as nat),
        Request::LookupGoItem { package_name, item_path, version } => "https://pkg.go.dev/"@
            + package_name@ + opt_part("@"@, version) + "#"@ + item_path@,
    }
}

/// Builds the docs.rs page address of an item, as `item_url` says.
fn build_item_url(crate_name: &str, version: &Option<String>, path: &str, kind: &str) -> (r: String)
    ensures
        r@ == item_url(crate_name@, *version, path@, kind@),
{
    let parts = split_on_path_sep(path);
    let n = parts.len();
    let module = join_with(parts.as_slice().split_at(n - 1).0, "/");
    let mut u = String::from_str("https://docs.rs/");
    u.append(crate_name);
    u.append("/");
    match version {
        Some(v) => u.append(v.as_str()),
        None => u.append("latest"),
    }
    u.append("/");
    u.append(crate_name);
    u.append("/");
    let ghost before = u@;
    if module.as_str().unicode_len() > 0 {
        u.append(module.as_str());
        u.append("/");
    }
    proof {
        lemma_split_path_nonempty(path@);
        assert(views(parts@.subrange(0, n - 1)) =~= split_path(path@).drop_last());
        assert(u@ =~= before + module_dirs(path@));
    }
    u.append(kind);
    u.append(".");
    u.append(parts[n - 1].as_str());
    u.append(".html");
    proof {
        assert(parts@[n - 1]@ == views(parts@)[n - 1]);
    }
    u
}

/// Computes `url_of`.
pub fn fetch_url(r: &Request, attempt: usize) -> (u: String)
    requires
        attempt < n_candidates(*r),
    ensures
        u@ == url_of(*r, attempt as nat),
{
    match r {
        Request::LookupCrate { crate_name, version } => {
            let mut u = String::from_str("https://docs.rs/crate/");
            u.append(crate_name.as_str());
            u.append("/");
            push_opt(&mut u, "", version);
            if version.is_some() {
                u.append("/");
            }
            assert(u@ =~= url_of(*r, attempt as nat));
            u
        },
        Request::SearchCrates { query, limit } => {
            let mut u = String::from_str("https://crates.io/api/v1/crates?q=");
            u.append(query.as_str());
            u.append("&per_page=");
            push_decimal(&mut u, effective_limit(*limit) as u64);
            u
        },
        Request::LookupItem { crate_name, item_path, version } => {
            let path = strip_crate_prefix(crate_name.as_str(), item_path.as_str());
            build_item_url(crate_name.as_str(), version, path.as_str(), item_kind(attempt))
        },
        Request::ListDevdocs => String::from_str("https://devdocs.io/docs.json"),
        Request::GetDevdocs { slug, entry } => {
            let mut u = String::from_str("https://devdocs.io/");
            u.append(slug.as_str());
            push_opt(&mut u, "/", entry);
            u
        },
        Request::SearchDevdocs { slug, query } => {
            let mut u = String::from_str("https://devdocs.io/");
            u.append(slug.as_str());
            u.append("/?q=");
            u.append(query.as_str());
            u
        },
        Request::LookupNpm { package_name, version } => {
            let mut u = String::from_str("https://registry.npmjs.org/");
            u.append(package_name.as_str());
            push_opt(&mut u, "/", version);
            u
        },
        Request::SearchNpm { query, limit } => {
            let mut u = String::from_str("https://registry.npmjs.org/-/v1/search?text=");
            u.append(query.as_str());
            u.append("&size=");
            push_decimal(&mut u, effective_limit(*limit) as u64);
            u
        },
        Request::LookupPypi { package_name, version } => {
            let mut u = String::from_str("https://pypi.org/pypi/");
            u.append(package_name.as_str());
            push_opt(&mut u, "/", version);
            u.append("/json");
            u
        },
        Request::SearchPypi { query, .. } => {
            let mut u = String::from_str("https://pypi.org/search/?q=");
            u.append(query.as_str());
            if attempt == 0 {
                u.append("&format=json");
            }
            assert(u@ =~= url_of(*r, attempt as nat));
            u
        },
        Request::LookupGo { package_name, version } => {
            let mut u = String::from_str("https://pkg.go.dev/");
            u.append(package_name.as_str());
            push_opt(&mut u, "@", version);
            u
        },
        Request::SearchGo { query, limit } => {
            let mut u = String::from_str("https://pkg.go.dev/search?q=");
            u.append(query.as_str());
            u.append("&limit=");
            push_decimal(&mut u, effective_limit(*limit) as u64);
            u
        },
        Request::LookupGoItem { package_name, item_path, version } => {
            let mut u = String::from_str("https://pkg.go.dev/");
            u.append(package_name.as_str());
            push_opt(&mut u, "@", version);
            u.append("#");
            u.append(item_path.as_str());
            u
        },
    }
}

/// A page size above the maximum asks for the same page as the maximum itself:
/// every search keeps the same cache key and fetches the same address.
pub proof fn lemma_limit_clamped(query: String, limit: u32, attempt: nat)
    requires
        limit >= MAX_LIMIT,
    ensures
        key_of(Request::SearchCrates { query, limit: Some(limit) }) == key_of(
            Request::SearchCrates { query, limit: Some(MAX_LIMIT) },
        ),
        url_of(Request::SearchCrates { query, limit: Some(limit) }, attempt) == url_of(
            Request::SearchCrates { query, limit: Some(MAX_LIMIT) },
            attempt,
        ),
        key_of(Request::SearchNpm { query, limit: Some(limit) }) == key_of(
            Request::SearchNpm { query, limit: Some(MAX_LIMIT) },
        ),
        url_of(Request::SearchNpm { query, limit: Some(limit) }, attempt) == url_of(
            Request::SearchNpm { query, limit: Some(MAX_LIMIT) },
            attempt,
        ),
        key_of(Request::SearchPypi { query, limit: Some(limit) }) == key_of(
            Request::SearchPypi { query, limit: Some(MAX_LIMIT) },
        ),
        url_of(Request::SearchPypi { query, limit: Some(limit) }, attempt) == url_of(
            Request::SearchPypi { query, limit: Some(MAX_LIMIT) },
            attempt,
        ),
        key_of(Request::SearchGo { query, limit: Some(limit) }) == key_of(
            Request::SearchGo { query, limit: Some(MAX_LIMIT) },
        ),
        url_of(Request::SearchGo { query, limit: Some(limit) }, attempt) == url_of(
            Request::SearchGo { query, limit: Some(MAX_LIMIT) },
            attempt,
        ),
{
}

/// The cache key of a crate lookup depends on the texts of its name and version
/// alone, and two versions of one crate have different keys.
pub proof fn lemma_crate_key(n1: String, n2: String, v1: Option<String>, v2: Option<String>)
    requires
        n1@ == n2@,
    ensures
        string_opt_view(v1) == string_opt_view(v2) ==> key_of(
            Request::LookupCrate { crate_name: n1, version: v1 },
        ) == key_of(Request::LookupCrate { crate_name: n2, version: v2 }),
        (v1 is Some && v2 is Some && v1->0@ != v2->0@) ==> key_of(
            Request::LookupCrate { crate_name: n1, version: v1 },
        ) != key_of(Request::LookupCrate { crate_name: n2, version: v2 }),
{
    if v1 is Some && v2 is Some && v1->0@ != v2->0@ {
        let k1 = n1@ + ":"@ + v1->0@;
        let k2 = n2@ + ":"@ + v2->0@;
        assert(opt_part(":"@, v1) == ":"@ + v1->0@);
        assert(opt_part(":"@, v2) == ":"@ + v2->0@);
        assert(n1@ + opt_part(":"@, v1) =~= k1);
        assert(n2@ + opt_part(":"@, v2) =~= k2);
        if k1 == k2 {
            let start: int = (n1@.len() + ":"@.len()) as int;
            assert(k1.subrange(start, k1.len() as int) =~= v1->0@);
            assert(k2.subrange(start, k2.len() as int) =~= v2->0@);
        }
    }
    if string_opt_view(v1) == string_opt_view(v2) {
        assert(opt_part(":"@, v1) == opt_part(":"@, v2));
    }
}

/// The text of an optional string.
pub open spec fn string_opt_view(o: Option<String>) -> Option<Seq<char>> {
    match o {
        Some(s) => Some(s@),
        None => None,
    }
}

} // verus!
