//! The dispatcher: the declared tools, the provider clients and the crate
//! registry's own cache, and the routing of each call to them.
use vstd::prelude::*;
use crate::cache::DocCache;
use crate::devdocs::DevDocsClient;
use crate::dispatch::{parse_call, parse_tool_call};
use crate::error::{ErrorKind, ToolError};
use crate::golang::GoClient;
use crate::json::Json;
use crate::npm::NpmClient;
use crate::pypi::PyPIClient;
use crate::request::{Request, n_candidates};
use crate::session::{Step, Pending, Outcome, Resolution, begin, resume, started, resumed, is_done, page_after_rendering};
use crate::request::key_of;
use crate::tools::{ToolDescriptor, tool_registry, tool_names, declares};

verus! {

/// The upstream service a request goes to; each has its own cache.
#[derive(Clone, Copy, PartialEq, Eq, Structural, Debug)]
pub enum Provider {
    Crates,
    DevDocs,
    Npm,
    Pypi,
    Go,
}

/// The provider that serves `r`.
pub open spec fn provider_of(r: Request) -> Provider {
    match r {
        Request::LookupCrate { .. } | Request::SearchCrates { .. } | Request::LookupItem { .. } => Provider::Crates,
        Request::ListDevdocs | Request::GetDevdocs { .. } | Request::SearchDevdocs { .. } => Provider::DevDocs,
        Request::LookupNpm { .. } | Request::SearchNpm { .. } => Provider::Npm,
        Request::LookupPypi { .. } | Request::SearchPypi { .. } => Provider::Pypi,
        _ => Provider::Go,
    }
}

/// Computes `provider_of`.
pub fn provider(r: &Request) -> (p: Provider)
    ensures
        p == provider_of(*r),
{
    match r {
        Request::LookupCrate { .. } | Request::SearchCrates { .. } | Request::LookupItem { .. } => Provider::Crates,
        Request::ListDevdocs | Request::GetDevdocs { .. } | Request::SearchDevdocs { .. } => Provider::DevDocs,
        Request::LookupNpm { .. } | Request::SearchNpm { .. } => Provider::Npm,
        Request::LookupPypi { .. } | Request::SearchPypi { .. } => Provider::Pypi,
        _ => Provider::Go,
    }
}

/// How the server describes itself to the client's model.
pub const INSTRUCTIONS: &'static str = "This server provides tools for looking up documentation for various programming languages and frameworks. \
    Supported documentation sources include Rust crates (docs.rs), JavaScript/TypeScript packages (npm), \
    Python packages (PyPI), and various other languages and frameworks via DevDocs.io. \
    You can search for packages, lookup documentation for specific packages or items within packages. \
    Use these tools to find information about libraries you are not familiar with. \
    All HTML documentation is automatically converted to markdown for better compatibility with language models.";

/// The documentation tool server's state: the crate registry's cache and one
/// client per other provider.
#[derive(Clone)]
pub struct DocRouter {
    pub cache: DocCache,
    pub devdocs_client: DevDocsClient,
    pub npm_client: NpmClient,
    pub pypi_client: PyPIClient,
    pub go_client: GoClient,
}

impl DocRouter {
    /// Every cache is well formed.
    pub open spec fn wf(&self) -> bool {
        &&& self.cache.wf()
        &&& self.devdocs_client.wf()
        &&& self.npm_client.wf()
        &&& self.pypi_client.wf()
        &&& self.go_client.wf()
    }

    /// The cache of provider `p`.
    pub open spec fn cache_view(&self, p: Provider) -> Map<Seq<char>, Seq<char>> {
        match p {
            Provider::Crates => self.cache@,
            Provider::DevDocs => self.devdocs_client@,
            Provider::Npm => self.npm_client@,
            Provider::Pypi => self.pypi_client@,
            Provider::Go => self.go_client@,
        }
    }

    /// A server whose caches are all empty.
    pub fn new() -> (r: DocRouter)
        ensures
            r.wf(),
            forall|p: Provider| r.cache_view(p) == Map::<Seq<char>, Seq<char>>::empty(),
    {
        DocRouter {
            cache: DocCache::new(),
            devdocs_client: DevDocsClient::new(),
            npm_client: NpmClient::new(),
            pypi_client: PyPIClient::new(),
            go_client: GoClient::new(),
        }
    }

    /// The server's name.
    pub fn name(&self) -> (r: String)
        ensures
            r@ == "codenav-docs"@,
    {
        String::from_str("codenav-docs")
    }

    /// What the server offers, for the client's model.
    pub fn instructions(&self) -> (r: String)
        ensures
            r@ == INSTRUCTIONS@,
    {
        String::from_str(INSTRUCTIONS)
    }

    /// The declared tools, in declaration order.
    pub fn list_tools(&self) -> (r: Vec<ToolDescriptor>)
        ensures
            r@.len() == tool_names().len(),
            forall|i: int| 0 <= i < r@.len() ==> declares(#[trigger] r@[i], tool_names()[i]),
    {
        tool_registry()
    }

    /// Starts `request` against its provider's cache.
    pub fn begin(&self, request: Request) -> (s: Step)
        requires
            self.wf(),
        ensures
            started(s, self.cache_view(provider_of(request)), request),
    {
        match provider(&request) {
            Provider::Crates => begin(&self.cache, request),
            Provider::DevDocs => begin(self.devdocs_client.cache_ref(), request),
            Provider::Npm => begin(self.npm_client.cache_ref(), request),
            Provider::Pypi => begin(self.pypi_client.cache_ref(), request),
            Provider::Go => begin(self.go_client.cache_ref(), request),
        }
    }

    /// Starts a lookup of a crate's documentation page.
    pub fn lookup_crate(&self, crate_name: String, version: Option<String>) -> (s: Step)
        requires
            self.wf(),
        ensures
            started(s, self.cache@, Request::LookupCrate { crate_name, version }),
    {
        begin(&self.cache, Request::LookupCrate { crate_name, version })
    }

    /// Starts a search of the crate registry.
    pub fn search_crates(&self, query: String, limit: Option<u32>) -> (s: Step)
        requires
            self.wf(),
        ensures
            started(s, self.cache@, Request::SearchCrates { query, limit }),
    {
        begin(&self.cache, Request::SearchCrates { query, limit })
    }

    /// Starts a lookup of one item of a crate, trying each structural kind in turn.
    pub fn lookup_item(&self, crate_name: String, item_path: String, version: Option<String>) -> (s: Step)
        requires
            self.wf(),
        ensures
            started(s, self.cache@, Request::LookupItem { crate_name, item_path, version }),
    {
        begin(&self.cache, Request::LookupItem { crate_name, item_path, version })
    }

    /// Starts the call of tool `tool_name` with `arguments`: fails at once when the
    /// tool is unknown or an argument is wrong, and otherwise starts its request.
    pub fn call_tool(&self, tool_name: &str, arguments: &Json) -> (s: Step)
        requires
            self.wf(),
        ensures
            match parse_call(tool_name@, *arguments) {
                Ok(request) => started(s, self.cache_view(provider_of(request)), request),
                Err(e) => is_done(s, Err(e)),
            },
    {
        match parse_tool_call(tool_name, arguments) {
            Ok(request) => self.begin(request),
            Err(e) => Step::Done(Err(e)),
        }
    }

    /// Continues a call with the answer to its pending fetch, in the cache of the
    /// request's provider; the other caches are left as they are.
    pub fn resume(&mut self, pending: Pending, outcome: Outcome) -> (s: Step)
        requires
            old(self).wf(),
            pending.attempt < n_candidates(pending.request),
        ensures
            final(self).wf(),
            resumed(
                s,
                old(self).cache_view(provider_of(pending.request)),
                final(self).cache_view(provider_of(pending.request)),
                pending,
                outcome,
            ),
            forall|p: Provider|
                p != provider_of(pending.request) ==> final(self).cache_view(p) == old(self).cache_view(p),
    {
        match provider(&pending.request) {
            Provider::Crates => resume(&mut self.cache, pending, outcome),
            Provider::DevDocs => self.devdocs_client.resume(pending, outcome),
            Provider::Npm => self.npm_client.resume(pending, outcome),
            Provider::Pypi => self.pypi_client.resume(pending, outcome),
            Provider::Go => self.go_client.resume(pending, outcome),
        }
    }

    /// Finishes a package lookup whose HTML long description the caller rendered,
    /// in the package index's cache; the other caches are left as they are.
    pub fn resume_rendered(&mut self, pending: Pending, doc: Json, rendering: Result<String, String>) -> (s: Step)
        requires
            old(self).wf(),
            pending.request is LookupPypi,
        ensures
            final(self).wf(),
            match page_after_rendering(pending.request, doc, rendering) {
                Resolution::Text(t) => is_done(s, Ok(t)) && final(self).cache_view(Provider::Pypi)
                    == old(self).cache_view(Provider::Pypi).insert(key_of(pending.request), t),
                Resolution::Error(kind, m) => is_done(s, Err((kind, m))) && final(self).cache_view(Provider::Pypi)
                    == old(self).cache_view(Provider::Pypi),
                _ => false,
            },
            forall|p: Provider| p != Provider::Pypi ==> final(self).cache_view(p) == old(self).cache_view(p),
    {
        self.pypi_client.resume_rendered(pending, doc, rendering)
    }

    /// Resources are declared but none exists.
    pub fn read_resource(&self, uri: &str) -> (r: Result<String, ToolError>)
        ensures
            r is Err && r->Err_0@ == (ErrorKind::NotFound, "Resource not found"@),
    {
        Err(ToolError::NotFound(String::from_str("Resource not found")))
    }

    /// Prompts are declared but none exists.
    pub fn get_prompt(&self, prompt_name: &str) -> (r: Result<String, ToolError>)
        ensures
            r is Err && r->Err_0@ == (ErrorKind::NotFound, "Prompt "@ + prompt_name@ + " not found"@),
    {
        let mut m = String::from_str("Prompt ");
        m.append(prompt_name);
        m.append(" not found");
        Err(ToolError::NotFound(m))
    }
}

} // verus!
