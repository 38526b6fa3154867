use devdocs_mcp::json::Json;
use devdocs_mcp::npm;
use devdocs_mcp::pypi;
use devdocs_mcp::request::{cache_key, effective_limit, fetch_url, strip_crate_prefix, Request};
use devdocs_mcp::text::{join_with, push_decimal, split_on_path_sep, starts_with_brace};

fn obj(pairs: Vec<(&str, Json)>) -> Json {
    Json::Object(pairs.into_iter().map(|(k, v)| (k.to_string(), v)).collect())
}

fn text(s: &str) -> Json {
    Json::Str(s.to_string())
}

#[test]
fn npm_package_page_lists_fields_in_order() {
    let doc = obj(vec![
        ("version", text("18.2.0")),
        ("description", text("React is a JavaScript library.")),
        ("keywords", Json::Array(vec![Json::UInt(1), text("react"), text("ui")])),
        ("homepage", text("https://react.dev")),
        ("repository", obj(vec![("type", text("git")), ("url", text("git+https://github.com/facebook/react.git"))])),
        ("license", text("MIT")),
        ("dependencies", obj(vec![("loose-envify", text("^1.1.0")), ("odd", Json::Null)])),
        ("readme", text("Hello")),
    ]);
    let md = npm::render_package("react", &doc);
    assert_eq!(
        md,
        "# react\n\n**Version:** 18.2.0\n\nReact is a JavaScript library.\n\n**Keywords:** , react, ui\n\n\
         **Homepage:** https://react.dev\n\n**Repository:** git+https://github.com/facebook/react.git\n\n\
         **License:** MIT\n\n## Dependencies\n\n- **loose-envify**: ^1.1.0\n\n## Documentation\n\nHello"
    );
}

#[test]
fn npm_package_page_of_an_empty_document_is_the_title() {
    assert_eq!(npm::render_package("left-pad", &obj(vec![])), "# left-pad\n\n");
}

#[test]
fn npm_search_numbers_each_hit_in_order() {
    let hit = |name: &str, version: &str| {
        obj(vec![(
            "package",
            obj(vec![
                ("name", text(name)),
                ("version", text(version)),
                ("links", obj(vec![("npm", text("https://www.npmjs.com/package/x"))])),
            ]),
        )])
    };
    let doc = obj(vec![("objects", Json::Array(vec![hit("react", "18.2.0"), hit("preact", "10.19.3")]))]);
    let md = npm::render_search("react", &doc);
    assert_eq!(
        md,
        "# NPM Search Results for 'react'\n\n\
         ## 1. react (v18.2.0)\n\nNo description\n\n- [NPM](https://www.npmjs.com/package/x)\n\n\
         ## 2. preact (v10.19.3)\n\nNo description\n\n- [NPM](https://www.npmjs.com/package/x)\n\n"
    );
    assert_eq!(md.matches("## ").count(), 2);
    assert!(md.find("react (v18.2.0)").unwrap() < md.find("preact (v10.19.3)").unwrap());
}

#[test]
fn npm_search_without_objects_says_so() {
    assert_eq!(
        npm::render_search("zz", &obj(vec![("total", Json::UInt(0))])),
        "# NPM Search Results for 'zz'\n\nNo packages found.\n"
    );
}

#[test]
fn pypi_package_page_renders_info() {
    let info = obj(vec![
        ("version", text("3.0.0")),
        ("summary", text("A simple framework.")),
        ("author", text("Armin")),
        ("author_email", text("armin@example.com")),
        ("license", text("BSD")),
        ("classifiers", Json::Array(vec![text("Framework :: Flask")])),
        ("project_urls", obj(vec![("Documentation", text("https://flask.palletsprojects.com/"))])),
        ("description", text("Plain words")),
        ("requires_dist", Json::Array(vec![text("Werkzeug>=3.0.0")])),
    ]);
    let md = pypi::render_package("flask", &obj(vec![("info", info)]), "");
    assert_eq!(
        md,
        "# flask\n\n**Version:** 3.0.0\n\nA simple framework.\n\n**Author:** Armin (armin@example.com)\n\n\
         **License:** BSD\n\n**Classifiers:**\n\n- Framework :: Flask\n\n\
         **Project Links:**\n\n- Documentation: https://flask.palletsprojects.com/\n\n\
         ## Description\n\n```\nPlain words\n```\n\n## Requirements\n\n- Werkzeug>=3.0.0\n\n\
         \n## Documentation\n\nFor full documentation, visit: https://flask.palletsprojects.com/\n\n"
    );
}

#[test]
fn pypi_description_follows_its_content_type() {
    let page = |t: &str| {
        let info = obj(vec![("description", text("<b>bold</b>")), ("description_content_type", text(t))]);
        pypi::render_package("p", &obj(vec![("info", info)]), "**bold**")
    };
    assert_eq!(page("text/markdown"), "# p\n\n## Description\n\n<b>bold</b>");
    assert_eq!(page("text/html"), "# p\n\n## Description\n\n**bold**");
    assert_eq!(page("text/plain"), "# p\n\n## Description\n\n```\n<b>bold</b>\n```\n");
}

#[test]
fn pypi_search_keeps_at_most_limit_results() {
    let hits = Json::Array(vec![
        obj(vec![("name", text("a")), ("version", text("1"))]),
        obj(vec![("name", text("b")), ("version", text("2"))]),
    ]);
    let md = pypi::render_search("q", 1, &obj(vec![("results", hits)]));
    assert_eq!(
        md,
        "# PyPI Search Results for 'q'\n\n## 1. a (v1)\n\nNo description\n\n- [PyPI Page](https://pypi.org/project/a)\n\n"
    );
}

#[test]
fn limits_default_and_clamp() {
    assert_eq!(effective_limit(None), 10);
    assert_eq!(effective_limit(Some(5)), 5);
    assert_eq!(effective_limit(Some(100)), 100);
    assert_eq!(effective_limit(Some(500)), 100);
}

#[test]
fn keys_follow_each_provider_layout() {
    let s = |x: &str| x.to_string();
    let cases = vec![
        (Request::LookupCrate { crate_name: s("tokio"), version: None }, "tokio"),
        (Request::SearchCrates { query: s("json"), limit: None }, "crates:search:json:10"),
        (
            Request::LookupItem { crate_name: s("tokio"), item_path: s("tokio::sync::Mutex"), version: Some(s("1.0.0")) },
            "tokio:1.0.0:sync::Mutex",
        ),
        (Request::GetDevdocs { slug: s("rust"), entry: Some(s("std")) }, "devdocs:rust:std"),
        (Request::SearchDevdocs { slug: s("rust"), query: s("vec") }, "devdocs:search:rust:vec"),
        (Request::LookupNpm { package_name: s("react"), version: Some(s("18.0.0")) }, "npm:react:18.0.0"),
        (Request::SearchPypi { query: s("flask"), limit: Some(500) }, "pypi:search:flask:100"),
        (Request::LookupGo { package_name: s("fmt"), version: Some(s("go1.21")) }, "go:package:fmt@go1.21"),
        (Request::SearchGo { query: s("http"), limit: Some(7) }, "go:search:http:7"),
    ];
    for (r, k) in cases {
        assert_eq!(cache_key(&r), k);
    }
}

#[test]
fn addresses_follow_each_provider_layout() {
    let s = |x: &str| x.to_string();
    assert_eq!(
        fetch_url(&Request::LookupPypi { package_name: s("flask"), version: Some(s("3.0.0")) }, 0),
        "https://pypi.org/pypi/flask/3.0.0/json"
    );
    assert_eq!(fetch_url(&Request::LookupNpm { package_name: s("react"), version: None }, 0), "https://registry.npmjs.org/react");
    assert_eq!(
        fetch_url(&Request::SearchDevdocs { slug: s("rust"), query: s("vec") }, 0),
        "https://devdocs.io/rust/?q=vec"
    );
    assert_eq!(
        fetch_url(&Request::LookupItem { crate_name: s("serde"), item_path: s("Serialize"), version: None }, 3),
        "https://docs.rs/serde/latest/serde/fn.Serialize.html"
    );
}

#[test]
fn decimal_rendering() {
    for (n, t) in [(0u64, "0"), (7, "7"), (10, "10"), (100, "100"), (u64::MAX, "18446744073709551615")] {
        let mut out = String::from("x");
        push_decimal(&mut out, n);
        assert_eq!(out, format!("x{}", t));
    }
}

#[test]
fn path_splitting_and_joining() {
    assert_eq!(split_on_path_sep("a::b::C"), vec!["a", "b", "C"]);
    assert_eq!(split_on_path_sep("a:::b"), vec!["a", ":b"]);
    assert_eq!(split_on_path_sep(""), vec![""]);
    assert_eq!(join_with(&["a".to_string(), "b".to_string()], "/"), "a/b");
    assert_eq!(strip_crate_prefix("tokio", "tokio::sync::Mutex"), "sync::Mutex");
    assert_eq!(strip_crate_prefix("tokio", "tokio_util::X"), "tokio_util::X");
}

#[test]
fn brace_detection_skips_white_space() {
    assert!(starts_with_brace(" \t\n{\"a\":1}"));
    assert!(!starts_with_brace("<html>"));
    assert!(!starts_with_brace("   "));
}
