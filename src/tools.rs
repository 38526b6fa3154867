//! The declared tools, and the checking of a call's arguments against them.
use vstd::prelude::*;

verus! {

/// The type a tool argument must have.
#[derive(Clone, Copy, PartialEq, Eq, Structural, Debug)]
pub enum ParamKind {
    Text,
    Integer,
}

/// One declared argument of a tool.
#[derive(Clone, Debug)]
pub struct ParamSpec {
    pub name: String,
    pub kind: ParamKind,
    pub description: String,
}

/// One declared tool: its name, what it does, its arguments and which of them
/// are required.
#[derive(Clone, Debug)]
pub struct ToolDescriptor {
    pub name: String,
    pub description: String,
    pub params: Vec<ParamSpec>,
    pub required: Vec<String>,
}

/// The names of the declared tools, in declaration order.
pub open spec fn tool_names() -> Seq<Seq<char>> {
    seq![
        "lookup_crate"@,
        "search_crates"@,
        "lookup_item"@,
        "list_devdocs_documentations"@,
        "get_devdocs_documentation"@,
        "search_devdocs_documentation"@,
        "lookup_npm_package"@,
        "search_npm_packages"@,
        "lookup_pypi_package"@,
        "search_pypi_packages"@,
        "lookup_go_package"@,
        "search_go_packages"@,
        "lookup_go_symbol"@,
        "lookup_go_item"@,
    ]
}

/// The required arguments of tool `name`, in the order they are checked.
pub open spec fn required_args(name: Seq<char>) -> Seq<Seq<char>> {
    if name == "lookup_crate"@ {
        seq!["crate_name"@]
    } else if name == "search_crates"@ {
        seq!["query"@]
    } else if name == "lookup_item"@ {
        seq!["crate_name"@, "item_path"@]
    } else if name == "list_devdocs_documentations"@ {
        seq![]
    } else if name == "get_devdocs_documentation"@ {
        seq!["slug"@]
    } else if name == "search_devdocs_documentation"@ {
        seq!["slug"@, "query"@]
    } else if name == "lookup_npm_package"@ || name == "lookup_pypi_package"@ || name == "lookup_go_package"@ {
        seq!["package_name"@]
    } else if name == "search_npm_packages"@ || name == "search_pypi_packages"@ || name == "search_go_packages"@ {
        seq!["query"@]
    } else if name == "lookup_go_symbol"@ {
        seq!["package_name"@, "symbol_name"@]
    } else if name == "lookup_go_item"@ {
        seq!["package_name"@, "item_path"@]
    } else {
        seq![]
    }
}

/// The optional arguments of tool `name`, with their types.
pub open spec fn optional_args(name: Seq<char>) -> Seq<(Seq<char>, ParamKind)> {
    if name == "search_crates"@ || name == "search_npm_packages"@ || name == "search_pypi_packages"@
        || name == "search_go_packages"@ {
        seq![("limit"@, ParamKind::Integer)]
    } else if name == "get_devdocs_documentation"@ {
        seq![("entry"@, ParamKind::Text)]
    } else if name == "list_devdocs_documentations"@ || name == "search_devdocs_documentation"@ {
        seq![]
    } else {
        seq![("version"@, ParamKind::Text)]
    }
}

/// The declared arguments of tool `name`: the required ones, all strings, then
/// the optional ones.
pub open spec fn declared_params(name: Seq<char>) -> Seq<(Seq<char>, ParamKind)> {
    required_args(name).map_values(|a: Seq<char>| (a, ParamKind::Text)) + optional_args(name)
}

/// Help text of a package version argument.
pub const VERSION_HELP: &'static str = "The version of the package (optional, defaults to latest)";
/// Help text of a crate version argument.
pub const CRATE_VERSION_HELP: &'static str = "The version of the crate (optional, defaults to latest)";
/// Help text of a search page size argument.
pub const LIMIT_HELP: &'static str = "Maximum number of results to return (optional, defaults to 10, max 100)";
/// Help text of a search query argument.
pub const QUERY_HELP: &'static str = "The search query";
/// Help text of a documentation set argument.
pub const SLUG_HELP: &'static str = "The documentation slug (e.g., 'javascript', 'python', 'react')";
/// Help text of a Go package argument.
pub const GO_PACKAGE_HELP: &'static str = "The name of the Go package";

/// What tool `name` does, as declared to callers.
pub open spec fn tool_description(name: Seq<char>) -> Seq<char> {
    if name == "lookup_crate"@ {
        "Look up documentation for a Rust crate (returns markdown)"@
    } else if name == "search_crates"@ {
        "Search for Rust crates on crates.io (returns JSON or markdown)"@
    } else if name == "lookup_item"@ {
        "Look up documentation for a specific item in a Rust crate (returns markdown)"@
    } else if name == "list_devdocs_documentations"@ {
        "List available documentation sets in DevDocs.io"@
    } else if name == "get_devdocs_documentation"@ {
        "Get documentation for a specific slug in DevDocs.io"@
    } else if name == "search_devdocs_documentation"@ {
        "Search within a specific documentation in DevDocs.io"@
    } else if name == "lookup_npm_package"@ {
        "Look up documentation for an NPM package"@
    } else if name == "search_npm_packages"@ {
        "Search for NPM packages"@
    } else if name == "lookup_pypi_package"@ {
        "Look up documentation for a Python package on PyPI"@
    } else if name == "search_pypi_packages"@ {
        "Search for Python packages on PyPI"@
    } else if name == "lookup_go_package"@ {
        "Look up documentation for a Go package on pkg.go.dev"@
    } else if name == "search_go_packages"@ {
        "Search for Go packages on pkg.go.dev"@
    } else if name == "lookup_go_symbol"@ {
        "Look up documentation for a specific symbol in a Go package on pkg.go.dev"@
    } else if name == "lookup_go_item"@ {
        "Look up documentation for a specific item in a Go package"@
    } else {
        Seq::empty()
    }
}

/// The help text of each declared argument of tool `name`, in the order of
/// `declared_params`.
pub open spec fn param_helps(name: Seq<char>) -> Seq<Seq<char>> {
    if name == "lookup_crate"@ {
        seq!["The name of the crate to look up"@, CRATE_VERSION_HELP@]
    } else if name == "search_crates"@ {
        seq![QUERY_HELP@, LIMIT_HELP@]
    } else if name == "lookup_item"@ {
        seq![
            "The name of the crate"@,
            "Path to the item (e.g., 'vec::Vec' or 'crate_name::vec::Vec' - crate prefix will be automatically stripped)"@,
            CRATE_VERSION_HELP@,
        ]
    } else if name == "list_devdocs_documentations"@ {
        seq![]
    } else if name == "get_devdocs_documentation"@ {
        seq![SLUG_HELP@, "Optional entry path within the documentation"@]
    } else if name == "search_devdocs_documentation"@ {
        seq![SLUG_HELP@, QUERY_HELP@]
    } else if name == "lookup_npm_package"@ {
        seq!["The name of the npm package"@, VERSION_HELP@]
    } else if name == "search_npm_packages"@ || name == "search_pypi_packages"@ || name == "search_go_packages"@ {
        seq![QUERY_HELP@, LIMIT_HELP@]
    } else if name == "lookup_pypi_package"@ {
        seq!["The name of the Python package"@, VERSION_HELP@]
    } else if name == "lookup_go_package"@ {
        seq![GO_PACKAGE_HELP@, VERSION_HELP@]
    } else if name == "lookup_go_symbol"@ {
        seq![GO_PACKAGE_HELP@, "The name of the symbol"@, VERSION_HELP@]
    } else if name == "lookup_go_item"@ {
        seq![GO_PACKAGE_HELP@, "The path to the item in the package"@, VERSION_HELP@]
    } else {
        seq![]
    }
}

/// The help text of each declared argument.
pub open spec fn param_help_views(ps: Seq<ParamSpec>) -> Seq<Seq<char>> {
    ps.map_values(|p: ParamSpec| p.description@)
}

/// The name and type of each declared argument.
pub open spec fn param_views(ps: Seq<ParamSpec>) -> Seq<(Seq<char>, ParamKind)> {
    ps.map_values(|p: ParamSpec| (p.name@, p.kind))
}

/// `d` declares tool `name` as the registry says.
pub open spec fn declares(d: ToolDescriptor, name: Seq<char>) -> bool {
    &&& d.name@ == name
    &&& d.description@ == tool_description(name)
    &&& param_help_views(d.params@) == param_helps(name)
    &&& d.required@.map_values(|s: String| s@) == required_args(name)
    &&& param_views(d.params@) == declared_params(name)
}

fn param(name: &str, kind: ParamKind, description: &str) -> (p: ParamSpec)
    ensures
        p.name@ == name@,
        p.kind == kind,
        p.description@ == description@,
{
    ParamSpec { name: String::from_str(name), kind, description: String::from_str(description) }
}


/// The help texts in an optional argument declaration.
pub open spec fn arg_helps(a: Option<(&str, &str)>) -> Seq<Seq<char>> {
    match a {
        Some(x) => seq![x.1@],
        None => Seq::empty(),
    }
}

/// The names in an optional argument declaration.
pub open spec fn arg_names(a: Option<(&str, &str)>) -> Seq<Seq<char>> {
    match a {
        Some(x) => seq![x.0@],
        None => Seq::empty(),
    }
}

fn push_required(params: &mut Vec<ParamSpec>, req: &mut Vec<String>, a: Option<(&str, &str)>)
    ensures
        param_views(final(params)@) == param_views(old(params)@) + arg_names(a).map_values(
            |n: Seq<char>| (n, ParamKind::Text),
        ),
        final(req)@.map_values(|s: String| s@) == old(req)@.map_values(|s: String| s@) + arg_names(a),
        param_help_views(final(params)@) == param_help_views(old(params)@) + arg_helps(a),
{
    match a {
        Some((arg, help)) => {
            params.push(param(arg, ParamKind::Text, help));
            req.push(String::from_str(arg));
        },
        None => {},
    }
    assert(param_views(final(params)@) =~= param_views(old(params)@) + arg_names(a).map_values(
        |n: Seq<char>| (n, ParamKind::Text),
    ));
    assert(final(req)@.map_values(|s: String| s@) =~= old(req)@.map_values(|s: String| s@) + arg_names(a));
    assert(param_help_views(final(params)@) =~= param_help_views(old(params)@) + arg_helps(a));
}

/// A tool with up to two required arguments, `first` then `second`, and up to one
/// optional argument.
fn tool_with(
    name: &str,
    description: &str,
    first: Option<(&str, &str)>,
    second: Option<(&str, &str)>,
    optional: Option<(&str, ParamKind, &str)>,
) -> (d: ToolDescriptor)
    ensures
        d.name@ == name@,
        d.description@ == description@,
        param_help_views(d.params@) == arg_helps(first) + arg_helps(second) + match optional {
            Some(o) => seq![o.2@],
            None => Seq::empty(),
        },
        d.required@.map_values(|s: String| s@) == arg_names(first) + arg_names(second),
        param_views(d.params@) == (arg_names(first) + arg_names(second)).map_values(
            |n: Seq<char>| (n, ParamKind::Text),
        ) + match optional {
            Some(o) => seq![(o.0@, o.1)],
            None => Seq::empty(),
        },
{
    let mut params: Vec<ParamSpec> = Vec::new();
    let mut req: Vec<String> = Vec::new();
    push_required(&mut params, &mut req, first);
    push_required(&mut params, &mut req, second);
    let ghost before = params@;
    match optional {
        Some((arg, kind, help)) => {
            params.push(param(arg, kind, help));
            assert(param_views(params@) =~= param_views(before) + seq![(arg@, kind)]);
            assert(param_help_views(params@) =~= param_help_views(before) + seq![help@]);
        },
        None => {
            assert(param_views(params@) =~= param_views(before) + Seq::empty());
            assert(param_help_views(params@) =~= param_help_views(before) + Seq::empty());
        },
    }
    assert(req@.map_values(|s: String| s@) =~= arg_names(first) + arg_names(second));
    assert((arg_names(first) + arg_names(second)).map_values(|n: Seq<char>| (n, ParamKind::Text))
        =~= arg_names(first).map_values(|n: Seq<char>| (n, ParamKind::Text)) + arg_names(second).map_values(
        |n: Seq<char>| (n, ParamKind::Text),
    ));
    ToolDescriptor {
        name: String::from_str(name),
        description: String::from_str(description),
        params,
        required: req,
    }
}

/// The descriptors of all declared tools, in declaration order.
pub fn tool_registry() -> (r: Vec<ToolDescriptor>)
    ensures
        r@.len() == tool_names().len(),
        forall|i: int| 0 <= i < r@.len() ==> declares(#[trigger] r@[i], tool_names()[i]),
{
    proof {
        lemma_tool_names_distinct();
    }
    let version = Some(("version", ParamKind::Text, VERSION_HELP));
    let limit = Some(("limit", ParamKind::Integer, LIMIT_HELP));
    let mut r: Vec<ToolDescriptor> = Vec::new();
    let d = tool_with(
        "lookup_crate",
        "Look up documentation for a Rust crate (returns markdown)",
        Some(("crate_name", "The name of the crate to look up")),
        None,
        Some(("version", ParamKind::Text, CRATE_VERSION_HELP)),
    );
    assert(param_help_views(d.params@) =~= param_helps(tool_names()[0]));
    assert(declares(d, tool_names()[0]));
    r.push(d);
    let d = tool_with(
        "search_crates",
        "Search for Rust crates on crates.io (returns JSON or markdown)",
        Some(("query", QUERY_HELP)),
        None,
        limit,
    );
    assert(param_help_views(d.params@) =~= param_helps(tool_names()[1]));
    assert(declares(d, tool_names()[1]));
    r.push(d);
    let d = tool_with(
        "lookup_item",
        "Look up documentation for a specific item in a Rust crate (returns markdown)",
        Some(("crate_name", "The name of the crate")),
        Some(("item_path", "Path to the item (e.g., 'vec::Vec' or 'crate_name::vec::Vec' - crate prefix will be automatically stripped)")),
        Some(("version", ParamKind::Text, CRATE_VERSION_HELP)),
    );
    assert(seq!["crate_name"@] + seq!["item_path"@] =~= seq!["crate_name"@, "item_path"@]);
    assert(param_help_views(d.params@) =~= param_helps(tool_names()[2]));
    assert(declares(d, tool_names()[2]));
    r.push(d);
    let d = tool_with(
        "list_devdocs_documentations",
        "List available documentation sets in DevDocs.io",
        None,
        None,
        None,
    );
    assert(param_help_views(d.params@) =~= param_helps(tool_names()[3]));
    assert(declares(d, tool_names()[3]));
    r.push(d);
    let d = tool_with(
        "get_devdocs_documentation",
        "Get documentation for a specific slug in DevDocs.io",
        Some(("slug", SLUG_HELP)),
        None,
        Some(("entry", ParamKind::Text, "Optional entry path within the documentation")),
    );
    assert(param_help_views(d.params@) =~= param_helps(tool_names()[4]));
    assert(declares(d, tool_names()[4]));
    r.push(d);
    let d = tool_with(
        "search_devdocs_documentation",
        "Search within a specific documentation in DevDocs.io",
        Some(("slug", SLUG_HELP)),
        Some(("query", QUERY_HELP)),
        None,
    );
    assert(seq!["slug"@] + seq!["query"@] =~= seq!["slug"@, "query"@]);
    assert(param_help_views(d.params@) =~= param_helps(tool_names()[5]));
    assert(declares(d, tool_names()[5]));
    r.push(d);
    let d = tool_with(
        "lookup_npm_package",
        "Look up documentation for an NPM package",
        Some(("package_name", "The name of the npm package")),
        None,
        version,
    );
    assert(param_help_views(d.params@) =~= param_helps(tool_names()[6]));
    assert(declares(d, tool_names()[6]));
    r.push(d);
    let d = tool_with("search_npm_packages", "Search for NPM packages", Some(("query", QUERY_HELP)),
        None, limit);
    assert(param_help_views(d.params@) =~= param_helps(tool_names()[7]));
    assert(declares(d, tool_names()[7]));
    r.push(d);
    let d = tool_with(
        "lookup_pypi_package",
        "Look up documentation for a Python package on PyPI",
        Some(("package_name", "The name of the Python package")),
        None,
        version,
    );
    assert(param_help_views(d.params@) =~= param_helps(tool_names()[8]));
    assert(declares(d, tool_names()[8]));
    r.push(d);
    let d = tool_with(
        "search_pypi_packages",
        "Search for Python packages on PyPI",
        Some(("query", QUERY_HELP)),
        None,
        limit,
    );
    assert(param_help_views(d.params@) =~= param_helps(tool_names()[9]));
    assert(declares(d, tool_names()[9]));
    r.push(d);
    let d = tool_with(
        "lookup_go_package",
        "Look up documentation for a Go package on pkg.go.dev",
        Some(("package_name", GO_PACKAGE_HELP)),
        None,
        version,
    );
    assert(param_help_views(d.params@) =~= param_helps(tool_names()[10]));
    assert(declares(d, tool_names()[10]));
    r.push(d);
    let d = tool_with(
        "search_go_packages",
        "Search for Go packages on pkg.go.dev",
        Some(("query", QUERY_HELP)),
        None,
        limit,
    );
    assert(param_help_views(d.params@) =~= param_helps(tool_names()[11]));
    assert(declares(d, tool_names()[11]));
    r.push(d);
    let d = tool_with(
        "lookup_go_symbol",
        "Look up documentation for a specific symbol in a Go package on pkg.go.dev",
        Some(("package_name", GO_PACKAGE_HELP)),
        Some(("symbol_name", "The name of the symbol")),
        version,
    );
    assert(seq!["package_name"@] + seq!["symbol_name"@] =~= seq!["package_name"@, "symbol_name"@]);
    assert(param_help_views(d.params@) =~= param_helps(tool_names()[12]));
    assert(declares(d, tool_names()[12]));
    r.push(d);
    let d = tool_with(
        "lookup_go_item",
        "Look up documentation for a specific item in a Go package",
        Some(("package_name", GO_PACKAGE_HELP)),
        Some(("item_path", "The path to the item in the package")),
        version,
    );
    assert(seq!["package_name"@] + seq!["item_path"@] =~= seq!["package_name"@, "item_path"@]);
    assert(param_help_views(d.params@) =~= param_helps(tool_names()[13]));
    assert(declares(d, tool_names()[13]));
    r.push(d);
    assert(forall|i: int| 0 <= i < r@.len() ==> declares(#[trigger] r@[i], tool_names()[i]));
    r
}

/// The declared tool names differ from one another, and their letters are known.
pub proof fn lemma_tool_names_distinct()
    ensures
        forall|i: int, j: int|
            0 <= i < j < tool_names().len() ==> tool_names()[i] != tool_names()[j],
{
    reveal_strlit("lookup_crate");
    reveal_strlit("search_crates");
    reveal_strlit("lookup_item");
    reveal_strlit("list_devdocs_documentations");
    reveal_strlit("get_devdocs_documentation");
    reveal_strlit("search_devdocs_documentation");
    reveal_strlit("lookup_npm_package");
    reveal_strlit("search_npm_packages");
    reveal_strlit("lookup_pypi_package");
    reveal_strlit("search_pypi_packages");
    reveal_strlit("lookup_go_package");
    reveal_strlit("search_go_packages");
    reveal_strlit("lookup_go_symbol");
    reveal_strlit("lookup_go_item");
    let t = tool_names();
    assert forall|i: int, j: int| 0 <= i < j < t.len() implies t[i] != t[j] by {
        if t[i] == t[j] {
            assert(t[i].len() == t[j].len());
            assert(t[i][0] == t[j][0]);
            assert(t[i][t[i].len() - 1] == t[j][t[j].len() - 1]);
            assert(t[i][7] == t[j][7]);
            assert(t[i][8] == t[j][8]);
        }
    }
}

} // verus!
