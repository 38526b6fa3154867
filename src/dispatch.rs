//! Turning a named tool call with untyped arguments into a typed request.
use vstd::prelude::*;
use crate::error::{ErrorKind, ToolError};
use crate::json::{Json, field};
use crate::request::{Request, clamp_limit, MAX_LIMIT};
use crate::text::{same_text, has_prefix};
use crate::tools::{tool_names, required_args, lemma_tool_names_distinct};
use crate::markdown::contains;

verus! {

/// The string argument `key`, when present and a string.
pub open spec fn text_arg(args: Json, key: Seq<char>) -> Option<String> {
    match field(args, key) {
        Some(Json::Str(s)) => Some(s),
        _ => None,
    }
}

/// The integer argument `key`, when present and a non-negative integer; a value
/// beyond the `u32` range saturates at `u32::MAX`.
pub open spec fn int_arg(args: Json, key: Seq<char>) -> Option<u32> {
    match field(args, key) {
        Some(Json::UInt(n)) => Some(if n > u32::MAX as u64 { u32::MAX } else { n as u32 }),
        _ => None,
    }
}

/// The error for a required argument that is missing or not a string.
pub open spec fn missing(arg: Seq<char>) -> (ErrorKind, Seq<char>) {
    (ErrorKind::InvalidParameters, arg + " is required"@)
}

/// The error for a tool that is not declared.
pub open spec fn unknown_tool(name: Seq<char>) -> (ErrorKind, Seq<char>) {
    (ErrorKind::NotFound, "Tool "@ + name + " not found"@)
}

/// The request that the call of tool `name` with `args` makes, or why it makes none.
pub open spec fn parse_call(name: Seq<char>, args: Json) -> Result<Request, (ErrorKind, Seq<char>)> {
    if name == "lookup_crate"@ {
        match text_arg(args, "crate_name"@) {
            Some(c) => Ok(Request::LookupCrate { crate_name: c, version: text_arg(args, "version"@) }),
            None => Err(missing("crate_name"@)),
        }
    } else if name == "search_crates"@ {
        match text_arg(args, "query"@) {
            Some(q) => Ok(Request::SearchCrates { query: q, limit: int_arg(args, "limit"@) }),
            None => Err(missing("query"@)),
        }
    } else if name == "lookup_item"@ {
        match (text_arg(args, "crate_name"@), text_arg(args, "item_path"@)) {
            (Some(c), Some(p)) => Ok(
                Request::LookupItem { crate_name: c, item_path: p, version: text_arg(args, "version"@) },
            ),
            (None, _) => Err(missing("crate_name"@)),
            (_, None) => Err(missing("item_path"@)),
        }
    } else if name == "list_devdocs_documentations"@ {
        Ok(Request::ListDevdocs)
    } else if name == "get_devdocs_documentation"@ {
        match text_arg(args, "slug"@) {
            Some(s) => Ok(Request::GetDevdocs { slug: s, entry: text_arg(args, "entry"@) }),
            None => Err(missing("slug"@)),
        }
    } else if name == "search_devdocs_documentation"@ {
        match (text_arg(args, "slug"@), text_arg(args, "query"@)) {
            (Some(s), Some(q)) => Ok(Request::SearchDevdocs { slug: s, query: q }),
            (None, _) => Err(missing("slug"@)),
            (_, None) => Err(missing("query"@)),
        }
    } else if name == "lookup_npm_package"@ {
        match text_arg(args, "package_name"@) {
            Some(p) => Ok(Request::LookupNpm { package_name: p, version: text_arg(args, "version"@) }),
            None => Err(missing("package_name"@)),
        }
    } else if name == "search_npm_packages"@ {
        match text_arg(args, "query"@) {
            Some(q) => Ok(Request::SearchNpm { query: q, limit: int_arg(args, "limit"@) }),
            None => Err(missing("query"@)),
        }
    } else if name == "lookup_pypi_package"@ {
        match text_arg(args, "package_name"@) {
            Some(p) => Ok(Request::LookupPypi { package_name: p, version: text_arg(args, "version"@) }),
            None => Err(missing("package_name"@)),
        }
    } else if name == "search_pypi_packages"@ {
        match text_arg(args, "query"@) {
            Some(q) => Ok(Request::SearchPypi { query: q, limit: int_arg(args, "limit"@) }),
            None => Err(missing("query"@)),
        }
    } else if name == "lookup_go_package"@ {
        match text_arg(args, "package_name"@) {
            Some(p) => Ok(Request::LookupGo { package_name: p, version: text_arg(args, "version"@) }),
            None => Err(missing("package_name"@)),
        }
    } else if name == "search_go_packages"@ {
        match text_arg(args, "query"@) {
            Some(q) => Ok(Request::SearchGo { query: q, limit: int_arg(args, "limit"@) }),
            None => Err(missing("query"@)),
        }
    } else if name == "lookup_go_symbol"@ {
        match (text_arg(args, "package_name"@), text_arg(args, "symbol_name"@)) {
            (Some(p), Some(s)) => Ok(
                Request::LookupGoItem { package_name: p, item_path: s, version: text_arg(args, "version"@) },
            ),
            (None, _) => Err(missing("package_name"@)),
            (_, None) => Err(missing("symbol_name"@)),
        }
    } else if name == "lookup_go_item"@ {
        match (text_arg(args, "package_name"@), text_arg(args, "item_path"@)) {
            (Some(p), Some(i)) => Ok(
                Request::LookupGoItem { package_name: p, item_path: i, version: text_arg(args, "version"@) },
            ),
            (None, _) => Err(missing("package_name"@)),
            (_, None) => Err(missing("item_path"@)),
        }
    } else {
        Err(unknown_tool(name))
    }
}

/// `r` is the outcome `parse_call` describes.
pub open spec fn parsed_as(r: Result<Request, ToolError>, expected: Result<Request, (ErrorKind, Seq<char>)>) -> bool {
    match (r, expected) {
        (Ok(x), Ok(y)) => x == y,
        (Err(e), Err(v)) => e@ == v,
        _ => false,
    }
}

/// Reads the string argument `key`.
pub fn get_text_arg(args: &Json, key: &str) -> (r: Option<String>)
    ensures
        r == text_arg(*args, key@),
{
    match args.get(key) {
        Some(v) => match v.as_str() {
            Some(s) => Some(s.clone()),
            None => None,
        },
        None => None,
    }
}

/// Reads the integer argument `key`.
pub fn get_int_arg(args: &Json, key: &str) -> (r: Option<u32>)
    ensures
        r == int_arg(*args, key@),
{
    match args.get(key) {
        Some(v) => match v.as_u64() {
            Some(n) => Some(if n > u32::MAX as u64 { u32::MAX } else { n as u32 }),
            None => None,
        },
        None => None,
    }
}

/// Reads the required string argument `key`, failing when it is missing.
fn require_text(args: &Json, key: &str) -> (r: Result<String, ToolError>)
    ensures
        match text_arg(*args, key@) {
            Some(s) => r == Ok::<String, ToolError>(s),
            None => r is Err && r->Err_0@ == missing(key@),
        },
{
    match get_text_arg(args, key) {
        Some(s) => Ok(s),
        None => {
            let mut m = String::from_str(key);
            m.append(" is required");
            Err(ToolError::InvalidParameters(m))
        },
    }
}

/// Checks the arguments of a call of tool `name` and builds its request.
pub fn parse_tool_call(name: &str, args: &Json) -> (r: Result<Request, ToolError>)
    ensures
        parsed_as(r, parse_call(name@, *args)),
{
    if same_text(name, "lookup_crate") {
        let crate_name = require_text(args, "crate_name")?;
        Ok(Request::LookupCrate { crate_name, version: get_text_arg(args, "version") })
    } else if same_text(name, "search_crates") {
        let query = require_text(args, "query")?;
        Ok(Request::SearchCrates { query, limit: get_int_arg(args, "limit") })
    } else if same_text(name, "lookup_item") {
        let crate_name = require_text(args, "crate_name")?;
        let item_path = require_text(args, "item_path")?;
        Ok(Request::LookupItem { crate_name, item_path, version: get_text_arg(args, "version") })
    } else if same_text(name, "list_devdocs_documentations") {
        Ok(Request::ListDevdocs)
    } else if same_text(name, "get_devdocs_documentation") {
        let slug = require_text(args, "slug")?;
        Ok(Request::GetDevdocs { slug, entry: get_text_arg(args, "entry") })
    } else if same_text(name, "search_devdocs_documentation") {
        let slug = require_text(args, "slug")?;
        let query = require_text(args, "query")?;
        Ok(Request::SearchDevdocs { slug, query })
    } else if same_text(name, "lookup_npm_package") {
        let package_name = require_text(args, "package_name")?;
        Ok(Request::LookupNpm { package_name, version: get_text_arg(args, "version") })
    } else if same_text(name, "search_npm_packages") {
        let query = require_text(args, "query")?;
        Ok(Request::SearchNpm { query, limit: get_int_arg(args, "limit") })
    } else if same_text(name, "lookup_pypi_package") {
        let package_name = require_text(args, "package_name")?;
        Ok(Request::LookupPypi { package_name, version: get_text_arg(args, "version") })
    } else if same_text(name, "search_pypi_packages") {
        let query = require_text(args, "query")?;
        Ok(Request::SearchPypi { query, limit: get_int_arg(args, "limit") })
    } else if same_text(name, "lookup_go_package") {
        let package_name = require_text(args, "package_name")?;
        Ok(Request::LookupGo { package_name, version: get_text_arg(args, "version") })
    } else if same_text(name, "search_go_packages") {
        let query = require_text(args, "query")?;
        Ok(Request::SearchGo { query, limit: get_int_arg(args, "limit") })
    } else if same_text(name, "lookup_go_symbol") {
        let package_name = require_text(args, "package_name")?;
        let item_path = require_text(args, "symbol_name")?;
        Ok(Request::LookupGoItem { package_name, item_path, version: get_text_arg(args, "version") })
    } else if same_text(name, "lookup_go_item") {
        let package_name = require_text(args, "package_name")?;
        let item_path = require_text(args, "item_path")?;
        Ok(Request::LookupGoItem { package_name, item_path, version: get_text_arg(args, "version") })
    } else {
        let mut m = String::from_str("Tool ");
        m.append(name);
        m.append(" not found");
        Err(ToolError::NotFound(m))
    }
}

/// A call of a tool that is not declared fails with `NotFound`, and the message
/// names the tool.
pub proof fn lemma_unknown_tool(name: Seq<char>, args: Json)
    requires
        !tool_names().contains(name),
    ensures
        parse_call(name, args) == Err::<Request, (ErrorKind, Seq<char>)>(unknown_tool(name)),
        unknown_tool(name).0 == ErrorKind::NotFound,
        contains(unknown_tool(name).1, name),
{
    let t = tool_names();
    assert(t[0] == "lookup_crate"@);
    assert(t[1] == "search_crates"@);
    assert(t[2] == "lookup_item"@);
    assert(t[3] == "list_devdocs_documentations"@);
    assert(t[4] == "get_devdocs_documentation"@);
    assert(t[5] == "search_devdocs_documentation"@);
    assert(t[6] == "lookup_npm_package"@);
    assert(t[7] == "search_npm_packages"@);
    assert(t[8] == "lookup_pypi_package"@);
    assert(t[9] == "search_pypi_packages"@);
    assert(t[10] == "lookup_go_package"@);
    assert(t[11] == "search_go_packages"@);
    assert(t[12] == "lookup_go_symbol"@);
    assert(t[13] == "lookup_go_item"@);
    reveal_strlit("Tool ");
    let m = unknown_tool(name).1;
    assert(m.subrange(5, 5 + name.len() as int) =~= name);
}

/// A call of a declared tool whose `j`-th required argument is missing, while
/// the ones before it are given, fails with `InvalidParameters` naming that argument.
pub proof fn lemma_missing_required(name: Seq<char>, args: Json, j: int)
    requires
        tool_names().contains(name),
        0 <= j < required_args(name).len(),
        text_arg(args, required_args(name)[j]) is None,
        forall|i: int| 0 <= i < j ==> text_arg(args, required_args(name)[i]) is Some,
    ensures
        parse_call(name, args) == Err::<Request, (ErrorKind, Seq<char>)>(missing(required_args(name)[j])),
        missing(required_args(name)[j]).0 == ErrorKind::InvalidParameters,
        has_prefix(missing(required_args(name)[j]).1, required_args(name)[j]),
{
    lemma_tool_names_distinct();
    let t = tool_names();
    let k = choose|k: int| 0 <= k < t.len() && t[k] == name;
    assert(t[0] == "lookup_crate"@);
    assert(t[1] == "search_crates"@);
    assert(t[2] == "lookup_item"@);
    assert(t[3] == "list_devdocs_documentations"@);
    assert(t[4] == "get_devdocs_documentation"@);
    assert(t[5] == "search_devdocs_documentation"@);
    assert(t[6] == "lookup_npm_package"@);
    assert(t[7] == "search_npm_packages"@);
    assert(t[8] == "lookup_pypi_package"@);
    assert(t[9] == "search_pypi_packages"@);
    assert(t[10] == "lookup_go_package"@);
    assert(t[11] == "search_go_packages"@);
    assert(t[12] == "lookup_go_symbol"@);
    assert(t[13] == "lookup_go_item"@);
    if k >= 1 { assert(t[k] != t[0]); }
    if k >= 2 { assert(t[k] != t[1]); }
    if k >= 3 { assert(t[k] != t[2]); }
    if k >= 4 { assert(t[k] != t[3]); }
    if k >= 5 { assert(t[k] != t[4]); }
    if k >= 6 { assert(t[k] != t[5]); }
    if k >= 7 { assert(t[k] != t[6]); }
    if k >= 8 { assert(t[k] != t[7]); }
    if k >= 9 { assert(t[k] != t[8]); }
    if k >= 10 { assert(t[k] != t[9]); }
    if k >= 11 { assert(t[k] != t[10]); }
    if k >= 12 { assert(t[k] != t[11]); }
    if k >= 13 { assert(t[k] != t[12]); }
    let a = required_args(name)[j];
    assert(missing(a).1.subrange(0, a.len() as int) =~= a);
}

/// A page size argument of a hundred or more, however large, asks for the
/// largest page.
pub proof fn lemma_large_limit_argument(args: Json, key: Seq<char>, n: u64)
    requires
        field(args, key) == Some(Json::UInt(n)),
        n >= MAX_LIMIT,
    ensures
        clamp_limit(int_arg(args, key)) == MAX_LIMIT,
{
}

} // verus!
