use devdocs_mcp::error::ToolError;
use devdocs_mcp::json::Json;
use devdocs_mcp::request::Request;
use devdocs_mcp::router::DocRouter;
use devdocs_mcp::session::{Outcome, Step};
use devdocs_mcp::tools::ParamKind;

fn obj(pairs: Vec<(&str, Json)>) -> Json {
    Json::Object(pairs.into_iter().map(|(k, v)| (k.to_string(), v)).collect())
}

fn text(s: &str) -> Json {
    Json::Str(s.to_string())
}

fn done(step: Step) -> Result<String, ToolError> {
    match step {
        Step::Done(r) => r,
        Step::Fetch(p, f) => panic!("unexpected fetch of {} for {:?}", f.url, p.request),
        Step::Render(p, _, html) => panic!("unexpected rendering of {} for {:?}", html, p.request),
    }
}

fn fetch(step: Step) -> (devdocs_mcp::session::Pending, devdocs_mcp::session::FetchRequest) {
    match step {
        Step::Fetch(p, f) => (p, f),
        Step::Done(r) => panic!("unexpected end: {:?}", r),
        Step::Render(p, _, html) => panic!("unexpected rendering of {} for {:?}", html, p.request),
    }
}

fn ok_page(body: &str) -> Outcome {
    Outcome::Response {
        status: 200,
        status_text: "200 OK".to_string(),
        body: Ok(body.to_string()),
        json: Err("expected value at line 1 column 1".to_string()),
        markdown: Ok(html2md::parse_html(body)),
    }
}

fn status(code: u16, shown: &str) -> Outcome {
    Outcome::Response {
        status: code,
        status_text: shown.to_string(),
        body: Ok(String::new()),
        json: Err("EOF while parsing a value at line 1 column 0".to_string()),
        markdown: Err("not read".to_string()),
    }
}

#[test]
fn test_router_capabilities() {
    let router = DocRouter::new();
    assert_eq!(router.name(), "codenav-docs");
    assert!(router.instructions().contains("documentation"));
}

#[test]
fn test_list_tools() {
    let router = DocRouter::new();
    let tools = router.list_tools();
    assert!(tools.len() > 0);
    let tool_names: Vec<String> = tools.iter().map(|t| t.name.clone()).collect();
    assert!(tool_names.contains(&"lookup_crate".to_string()));
    assert!(tool_names.contains(&"search_crates".to_string()));
    assert!(tool_names.contains(&"lookup_item".to_string()));
    for tool in &tools {
        if !tool.required.is_empty() {
            assert!(!tool.params.is_empty());
        }
    }
}

#[test]
fn test_doc_router_initialization() {
    let router = DocRouter::new();
    assert_eq!(router.name(), "codenav-docs");
    let tools = router.list_tools();
    assert!(tools.len() > 0);
    let lookup_crate_tool = tools.iter().find(|t| t.name == "lookup_crate").unwrap();
    assert!(lookup_crate_tool.required.contains(&"crate_name".to_string()));
    assert_eq!(lookup_crate_tool.params[0].kind, ParamKind::Text);
}

#[test]
fn registry_declares_fourteen_tools_in_order() {
    let tools = DocRouter::new().list_tools();
    let names: Vec<&str> = tools.iter().map(|t| t.name.as_str()).collect();
    assert_eq!(
        names,
        vec![
            "lookup_crate",
            "search_crates",
            "lookup_item",
            "list_devdocs_documentations",
            "get_devdocs_documentation",
            "search_devdocs_documentation",
            "lookup_npm_package",
            "search_npm_packages",
            "lookup_pypi_package",
            "search_pypi_packages",
            "lookup_go_package",
            "search_go_packages",
            "lookup_go_symbol",
            "lookup_go_item",
        ]
    );
    assert_eq!(tools[2].required, vec!["crate_name".to_string(), "item_path".to_string()]);
    assert_eq!(tools[1].params[1].name, "limit");
    assert_eq!(tools[1].params[1].kind, ParamKind::Integer);
    assert!(tools[3].params.is_empty());
}

#[test]
fn test_invalid_tool_call() {
    let router = DocRouter::new();
    let result = done(router.call_tool("invalid_tool", &obj(vec![])));
    assert!(matches!(result, Err(ToolError::NotFound(_))));
    if let Err(ToolError::NotFound(msg)) = result {
        assert!(msg.contains("invalid_tool"));
        assert_eq!(msg, "Tool invalid_tool not found");
    }
}

#[test]
fn test_lookup_crate_missing_parameter() {
    let router = DocRouter::new();
    let result = done(router.call_tool("lookup_crate", &obj(vec![])));
    assert!(matches!(result, Err(ToolError::InvalidParameters(_))));
    if let Err(ToolError::InvalidParameters(msg)) = result {
        assert!(msg.contains("crate_name is required"));
    }
}

#[test]
fn test_search_crates_missing_parameter() {
    let router = DocRouter::new();
    let result = done(router.call_tool("search_crates", &obj(vec![])));
    assert!(matches!(result, Err(ToolError::InvalidParameters(_))));
    if let Err(ToolError::InvalidParameters(msg)) = result {
        assert!(msg.contains("query is required"));
    }
}

#[test]
fn test_lookup_item_missing_parameters() {
    let router = DocRouter::new();
    let result = done(router.call_tool("lookup_item", &obj(vec![])));
    assert!(matches!(result, Err(ToolError::InvalidParameters(_))));

    let result = done(router.call_tool("lookup_item", &obj(vec![("crate_name", text("tokio"))])));
    assert!(matches!(result, Err(ToolError::InvalidParameters(_))));
    if let Err(ToolError::InvalidParameters(msg)) = result {
        assert!(msg.contains("item_path is required"));
    }

    let result = done(router.call_tool("lookup_item", &obj(vec![("item_path", text("Stream"))])));
    assert!(matches!(result, Err(ToolError::InvalidParameters(_))));
    if let Err(ToolError::InvalidParameters(msg)) = result {
        assert!(msg.contains("crate_name is required"));
    }
}

#[test]
fn test_invalid_parameters_handling() {
    let router = DocRouter::new();
    let result = done(router.call_tool("lookup_crate", &obj(vec![])));
    assert!(matches!(result, Err(ToolError::InvalidParameters(_))));
    let result = done(router.call_tool("invalid_tool", &obj(vec![])));
    assert!(matches!(result, Err(ToolError::NotFound(_))));
}

#[test]
fn missing_second_argument_of_go_symbol_is_named() {
    let router = DocRouter::new();
    let result = done(router.call_tool("lookup_go_symbol", &obj(vec![("package_name", text("fmt"))])));
    match result {
        Err(ToolError::InvalidParameters(msg)) => assert_eq!(msg, "symbol_name is required"),
        other => panic!("unexpected: {:?}", other),
    }
}

#[test]
fn test_lookup_crate_network_error() {
    let mut router = DocRouter::new();
    let step = router.call_tool("lookup_crate", &obj(vec![("crate_name", text("serde"))]));
    let (pending, request) = fetch(step);
    assert_eq!(request.url, "https://docs.rs/crate/serde/");
    let result = done(router.resume(pending, Outcome::Transport("operation timed out".to_string())));
    assert!(matches!(result, Err(ToolError::ExecutionError(_))));
    if let Err(ToolError::ExecutionError(msg)) = result {
        assert!(msg.contains("Failed to fetch documentation"));
        assert_eq!(msg, "Failed to fetch documentation: operation timed out");
    }
}

#[test]
fn test_lookup_crate_uses_cache() {
    let mut router = DocRouter::new();
    router.cache.set("test_crate".to_string(), "Cached documentation for test_crate".to_string());
    let result = done(router.call_tool("lookup_crate", &obj(vec![("crate_name", text("test_crate"))])));
    assert!(result.is_ok());
    assert_eq!(result.unwrap(), "Cached documentation for test_crate");
}

#[test]
fn test_lookup_item_uses_cache() {
    let mut router = DocRouter::new();
    router.cache.set(
        "test_crate:test::path".to_string(),
        "Cached documentation for test_crate::test::path".to_string(),
    );
    let result = done(router.call_tool(
        "lookup_item",
        &obj(vec![("crate_name", text("test_crate")), ("item_path", text("test::path"))]),
    ));
    assert!(result.is_ok());
    assert_eq!(result.unwrap(), "Cached documentation for test_crate::test::path");
}

#[test]
fn test_mocked_success_case() {
    let mut router = DocRouter::new();
    router.cache.set(
        "serde".to_string(),
        "# Serde\n\nA framework for serializing and deserializing Rust data structures.".to_string(),
    );
    let result = done(router.call_tool("lookup_crate", &obj(vec![("crate_name", text("serde"))])));
    assert!(result.is_ok());
    let text = result.unwrap();
    assert!(text.contains("Serde"));
    assert!(text.contains("serializing"));
}

#[test]
fn test_cache_key_generation() {
    let mut router = DocRouter::new();
    router.cache.set("tokio:sync::Mutex".to_string(), "Mutex documentation".to_string());
    let result = done(router.call_tool(
        "lookup_item",
        &obj(vec![("crate_name", text("tokio")), ("item_path", text("sync::Mutex"))]),
    ));
    assert!(result.is_ok());
    assert_eq!(result.unwrap(), "Mutex documentation");
}

#[test]
fn test_version_in_cache_key() {
    let mut router = DocRouter::new();
    router.cache.set("tokio:1.2.3".to_string(), "Tokio 1.2.3 documentation".to_string());
    let result = done(router.call_tool(
        "lookup_crate",
        &obj(vec![("crate_name", text("tokio")), ("version", text("1.2.3"))]),
    ));
    assert!(result.is_ok());
    assert_eq!(result.unwrap(), "Tokio 1.2.3 documentation");
}

#[test]
fn test_parameter_type_errors() {
    let router = DocRouter::new();
    let result = done(router.call_tool("lookup_crate", &obj(vec![("crate_name", Json::UInt(123))])));
    match result {
        Err(ToolError::InvalidParameters(msg)) => assert!(msg.contains("crate_name")),
        other => panic!("Unexpected error type: {:?}", other),
    }
    // A limit that is not a number is ignored: the default page size is asked for.
    let step = router.call_tool(
        "search_crates",
        &obj(vec![("query", text("tokio")), ("limit", text("definitely not a number!"))]),
    );
    let (_, request) = fetch(step);
    assert_eq!(request.url, "https://crates.io/api/v1/crates?q=tokio&per_page=10");
}

#[test]
fn test_edge_cases() {
    let mut router = DocRouter::new();
    let long_name = "a".repeat(1000);
    for name in ["", long_name.as_str(), "invalid!@#$%^&*()"] {
        let (pending, _) = fetch(router.call_tool("lookup_crate", &obj(vec![("crate_name", text(name))])));
        let result = done(router.resume(pending, status(404, "404 Not Found")));
        assert!(result.is_err());
    }
}

#[test]
fn test_unimplemented_apis() {
    let router = DocRouter::new();
    let result = router.read_resource("test");
    assert!(result.is_err());
    let result = router.get_prompt("test");
    assert!(result.is_err());
    match result {
        Err(ToolError::NotFound(msg)) => assert_eq!(msg, "Prompt test not found"),
        other => panic!("unexpected: {:?}", other),
    }
}

#[test]
fn lookup_stores_the_page_and_a_second_call_hits_the_cache() {
    let mut router = DocRouter::new();
    let args = obj(vec![("crate_name", text("tokio")), ("version", text("1.2.3"))]);
    let (pending, request) = fetch(router.call_tool("lookup_crate", &args));
    assert_eq!(request.url, "https://docs.rs/crate/tokio/1.2.3/");
    assert_eq!(request.user_agent, "CodeNav/0.1.0 (https://github.com/HikaruEgashira/codenav-mcp)");
    let page = "<h1>Tokio</h1><p>An asynchronous runtime.</p>";
    let first = done(router.resume(pending, ok_page(page))).unwrap();
    assert_eq!(first, html2md::parse_html(page));
    assert_ne!(first, page);
    assert_eq!(router.cache.get("tokio:1.2.3"), Some(first.clone()));
    let second = done(router.call_tool("lookup_crate", &args)).unwrap();
    assert_eq!(second, first);
}

#[test]
fn item_lookup_tries_kinds_in_order_and_stops_at_the_third() {
    let mut router = DocRouter::new();
    let args = obj(vec![("crate_name", text("serde")), ("item_path", text("serde::ser::Serializer"))]);
    let (p0, f0) = fetch(router.call_tool("lookup_item", &args));
    assert_eq!(f0.url, "https://docs.rs/serde/latest/serde/ser/struct.Serializer.html");
    let (p1, f1) = fetch(router.resume(p0, status(404, "404 Not Found")));
    assert_eq!(f1.url, "https://docs.rs/serde/latest/serde/ser/enum.Serializer.html");
    let (p2, f2) = fetch(router.resume(p1, Outcome::Transport("connection reset".to_string())));
    assert_eq!(f2.url, "https://docs.rs/serde/latest/serde/ser/trait.Serializer.html");
    let page = "<h2>Trait Serializer</h2>";
    let result = done(router.resume(p2, ok_page(page))).unwrap();
    assert_eq!(result, html2md::parse_html(page));
    assert_eq!(router.cache.get("serde:ser::Serializer"), Some(result));
}

#[test]
fn item_lookup_reports_the_last_failure_when_every_kind_fails() {
    let mut router = DocRouter::new();
    let args = obj(vec![
        ("crate_name", text("tokio")),
        ("item_path", text("Nothing")),
        ("version", text("1.0.0")),
    ]);
    let (mut pending, f) = fetch(router.call_tool("lookup_item", &args));
    assert_eq!(f.url, "https://docs.rs/tokio/1.0.0/tokio/struct.Nothing.html");
    let mut urls = vec![f.url];
    loop {
        match router.resume(pending, status(404, "404 Not Found")) {
            Step::Fetch(p, f) => {
                urls.push(f.url);
                pending = p;
            }
            Step::Render(..) => panic!("unexpected rendering"),
            Step::Done(r) => {
                match r {
                    Err(ToolError::ExecutionError(msg)) => assert_eq!(
                        msg,
                        "Failed to fetch item documentation. No matching item found. Last error: Status code: 404 Not Found"
                    ),
                    other => panic!("unexpected: {:?}", other),
                }
                break;
            }
        }
    }
    assert_eq!(urls.len(), 5);
    assert_eq!(urls[4], "https://docs.rs/tokio/1.0.0/tokio/macro.Nothing.html");
}

#[test]
fn search_limit_is_clamped_to_one_hundred() {
    let router = DocRouter::new();
    let mut urls = Vec::new();
    for limit in [500u64, 100] {
        let (_, f) = fetch(router.call_tool(
            "search_npm_packages",
            &obj(vec![("query", text("react")), ("limit", Json::UInt(limit))]),
        ));
        urls.push(f.url);
    }
    assert_eq!(urls[0], urls[1]);
    assert_eq!(urls[0], "https://registry.npmjs.org/-/v1/search?text=react&size=100");
}

#[test]
fn search_crates_keeps_json_and_renders_html() {
    let mut router = DocRouter::new();
    let (p, f) = fetch(router.search_crates("json".to_string(), Some(5)));
    assert_eq!(f.url, "https://crates.io/api/v1/crates?q=json&per_page=5");
    let body = "  \n{\"crates\":[]}";
    assert_eq!(done(router.resume(p, ok_page(body))).unwrap(), body);
    let (p, _) = fetch(router.search_crates("json".to_string(), None));
    let html = "<p>crates</p>";
    assert_eq!(done(router.resume(p, ok_page(html))).unwrap(), html2md::parse_html(html));
}

#[test]
fn unreadable_body_is_an_execution_error() {
    let mut router = DocRouter::new();
    let (p, _) = fetch(router.call_tool("lookup_go_package", &obj(vec![("package_name", text("fmt"))])));
    let outcome = Outcome::Response {
        status: 200,
        status_text: "200 OK".to_string(),
        body: Err("error decoding response body".to_string()),
        json: Err("error decoding response body".to_string()),
        markdown: Err("error decoding response body".to_string()),
    };
    match done(router.resume(p, outcome)) {
        Err(ToolError::ExecutionError(msg)) => {
            assert_eq!(msg, "Failed to read response body: error decoding response body")
        }
        other => panic!("unexpected: {:?}", other),
    }
}

#[test]
fn pypi_search_falls_back_to_the_result_page() {
    let mut router = DocRouter::new();
    let (p, f) = fetch(router.call_tool("search_pypi_packages", &obj(vec![("query", text("flask"))])));
    assert_eq!(f.url, "https://pypi.org/search/?q=flask&format=json");
    assert_eq!(f.user_agent, "CodeNav-MCP/0.1.0");
    let (p, f) = fetch(router.resume(p, status(404, "404 Not Found")));
    assert_eq!(f.url, "https://pypi.org/search/?q=flask");
    let page = "<ul><li>Flask</li></ul>";
    let result = done(router.resume(p, ok_page(page))).unwrap();
    assert_eq!(result, html2md::parse_html(page));
    assert_eq!(router.pypi_client.get_cache("pypi:search:flask:10"), Some(result));
}

#[test]
fn devdocs_list_is_returned_raw_and_cached() {
    let mut router = DocRouter::new();
    let (p, f) = fetch(router.call_tool("list_devdocs_documentations", &obj(vec![])));
    assert_eq!(f.url, "https://devdocs.io/docs.json");
    let body = "[{\"slug\":\"rust\"}]";
    assert_eq!(done(router.resume(p, ok_page(body))).unwrap(), body);
    assert_eq!(router.devdocs_client.get_cache("devdocs:list"), Some(body.to_string()));
    assert_eq!(done(router.call_tool("list_devdocs_documentations", &obj(vec![]))).unwrap(), body);
}

#[test]
fn go_item_addresses_and_keys() {
    let mut router = DocRouter::new();
    let args = obj(vec![
        ("package_name", text("net/http")),
        ("symbol_name", text("Client")),
        ("version", text("go1.21")),
    ]);
    let (p, f) = fetch(router.call_tool("lookup_go_symbol", &args));
    assert_eq!(f.url, "https://pkg.go.dev/net/http@go1.21#Client");
    assert_eq!(f.user_agent, "CodeNav/0.1.0");
    let result = done(router.resume(p, ok_page("<p>Client</p>"))).unwrap();
    assert_eq!(done(router.call_tool("lookup_go_symbol", &args)).unwrap(), result);
}

#[test]
fn status_failure_message_names_the_status() {
    let mut router = DocRouter::new();
    let (p, _) = fetch(router.call_tool(
        "get_devdocs_documentation",
        &obj(vec![("slug", text("rust")), ("entry", text("std/vec"))]),
    ));
    match done(router.resume(p, status(500, "500 Internal Server Error"))) {
        Err(ToolError::ExecutionError(msg)) => {
            assert_eq!(msg, "Failed to fetch DevDocs documentation. Status: 500 Internal Server Error")
        }
        other => panic!("unexpected: {:?}", other),
    }
}

#[test]
fn requests_are_typed_from_arguments() {
    let args = obj(vec![("query", text("x")), ("limit", Json::UInt(4_294_967_301))]);
    match devdocs_mcp::dispatch::parse_tool_call("search_go_packages", &args) {
        Ok(Request::SearchGo { query, limit }) => {
            assert_eq!(query, "x");
            assert_eq!(limit, Some(u32::MAX));
        }
        other => panic!("unexpected: {:?}", other),
    }
}

#[test]
fn limit_beyond_u32_is_clamped_not_truncated() {
    let router = DocRouter::new();
    let (_, f) = fetch(router.call_tool(
        "search_crates",
        &obj(vec![("query", text("serde")), ("limit", Json::UInt(4_294_967_301))]),
    ));
    assert_eq!(f.url, "https://crates.io/api/v1/crates?q=serde&per_page=100");
}

#[test]
fn crate_search_is_cached_under_query_and_limit() {
    let mut router = DocRouter::new();
    let args = obj(vec![("query", text("json")), ("limit", Json::UInt(500))]);
    let (p, _) = fetch(router.call_tool("search_crates", &args));
    let body = "{\"crates\":[]}";
    assert_eq!(done(router.resume(p, ok_page(body))).unwrap(), body);
    assert_eq!(router.cache.get("crates:search:json:100"), Some(body.to_string()));
    let again = obj(vec![("query", text("json")), ("limit", Json::UInt(100))]);
    assert_eq!(done(router.call_tool("search_crates", &again)).unwrap(), body);
}

#[test]
fn declared_descriptions_are_kept() {
    let tools = DocRouter::new().list_tools();
    assert_eq!(tools[0].description, "Look up documentation for a Rust crate (returns markdown)");
    assert_eq!(tools[0].params[0].description, "The name of the crate to look up");
    assert_eq!(tools[1].params[1].description, "Maximum number of results to return (optional, defaults to 10, max 100)");
}

#[test]
fn page_that_fails_to_render_is_an_execution_error() {
    let mut router = DocRouter::new();
    let (p, f) = fetch(router.call_tool("lookup_crate", &obj(vec![("crate_name", text("odd"))])));
    assert!(f.render_html);
    let outcome = Outcome::Response {
        status: 200,
        status_text: "200 OK".to_string(),
        body: Ok("<br><b><li>x</li></b>".to_string()),
        json: Err("expected value at line 1 column 1".to_string()),
        markdown: Err("the HTML could not be rendered".to_string()),
    };
    match done(router.resume(p, outcome)) {
        Err(ToolError::ExecutionError(msg)) => {
            assert_eq!(msg, "Failed to convert HTML to markdown: the HTML could not be rendered")
        }
        other => panic!("unexpected: {:?}", other),
    }
    assert_eq!(router.cache.get("odd"), None);
}

fn json_page(doc: Json) -> Outcome {
    Outcome::Response {
        status: 200,
        status_text: "200 OK".to_string(),
        body: Ok("{...}".to_string()),
        json: Ok(doc),
        markdown: Err("not asked for".to_string()),
    }
}

#[test]
fn pypi_html_description_is_rendered_by_the_caller() {
    let mut router = DocRouter::new();
    let args = obj(vec![("package_name", text("p"))]);
    let (p, f) = fetch(router.call_tool("lookup_pypi_package", &args));
    assert!(!f.render_html);
    let info = obj(vec![("description", text("<b>bold</b>")), ("description_content_type", text("text/html"))]);
    let (p, doc, html) = match router.resume(p, json_page(obj(vec![("info", info)]))) {
        Step::Render(p, doc, html) => (p, doc, html),
        other => panic!("unexpected: {:?}", other),
    };
    assert_eq!(html, "<b>bold</b>");
    let md = html2md::parse_html(&html);
    let page = done(router.resume_rendered(p, doc, Ok(md.clone()))).unwrap();
    assert_eq!(page, format!("# p\n\n## Description\n\n{}", md));
    assert_eq!(router.pypi_client.get_cache("pypi:p"), Some(page.clone()));
    assert_eq!(done(router.call_tool("lookup_pypi_package", &args)).unwrap(), page);
}

#[test]
fn pypi_description_that_fails_to_render_is_an_execution_error() {
    let mut router = DocRouter::new();
    let (p, _) = fetch(router.call_tool("lookup_pypi_package", &obj(vec![("package_name", text("p"))])));
    let info = obj(vec![("description", text("<br><b><li>x</li></b>")), ("description_content_type", text("html"))]);
    let (p, doc) = match router.resume(p, json_page(obj(vec![("info", info)]))) {
        Step::Render(p, doc, _) => (p, doc),
        other => panic!("unexpected: {:?}", other),
    };
    match done(router.resume_rendered(p, doc, Err("panicked".to_string()))) {
        Err(ToolError::ExecutionError(msg)) => assert_eq!(msg, "Failed to convert HTML to markdown: panicked"),
        other => panic!("unexpected: {:?}", other),
    }
    assert_eq!(router.pypi_client.get_cache("pypi:p"), None);
}

#[test]
fn pypi_search_falls_back_when_the_json_endpoint_is_unreachable() {
    let mut router = DocRouter::new();
    let (p, _) = fetch(router.call_tool("search_pypi_packages", &obj(vec![("query", text("flask"))])));
    let (_, f) = fetch(router.resume(p, Outcome::Transport("connection refused".to_string())));
    assert_eq!(f.url, "https://pypi.org/search/?q=flask");
    assert!(f.render_html);
}
