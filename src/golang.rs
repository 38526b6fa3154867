//! The Go module index.
use vstd::prelude::*;
use crate::cache::DocCache;
use crate::request::{Request, n_candidates};
use crate::session::{Step, Pending, Outcome, begin, resume, started, resumed};

verus! {

/// Client of the Go module index, with a cache of its own.
#[derive(Clone)]
pub struct GoClient {
    cache: DocCache,
}

impl View for GoClient {
    type V = Map<Seq<char>, Seq<char>>;

    closed spec fn view(&self) -> Map<Seq<char>, Seq<char>> {
        self.cache@
    }
}

impl GoClient {
    /// The cache is well formed.
    pub closed spec fn wf(&self) -> bool {
        self.cache.wf()
    }

    /// A client with an empty cache.
    pub fn new() -> (r: GoClient)
        ensures
            r.wf(),
            r@ == Map::<Seq<char>, Seq<char>>::empty(),
    {
        GoClient { cache: DocCache::new() }
    }

    /// The client's cache.
    pub fn cache_ref(&self) -> (r: &DocCache)
        ensures
            r@ == self@,
            r.wf() == self.wf(),
    {
        &self.cache
    }

    /// Continues a call of this client with the answer to its pending fetch.
    pub fn resume(&mut self, pending: Pending, outcome: Outcome) -> (s: Step)
        requires
            old(self).wf(),
            pending.attempt < n_candidates(pending.request),
        ensures
            final(self).wf(),
            resumed(s, old(self)@, final(self)@, pending, outcome),
    {
        resume(&mut self.cache, pending, outcome)
    }

    /// Starts a lookup of a module, at a version or the latest.
    pub fn lookup_package(&self, package_name: String, version: Option<String>) -> (s: Step)
        requires
            self.wf(),
        ensures
            started(s, self@, Request::LookupGo { package_name, version }),
    {
        begin(&self.cache, Request::LookupGo { package_name, version })
    }

    /// Starts a search of the module index.
    pub fn search_packages(&self, query: String, limit: Option<u32>) -> (s: Step)
        requires
            self.wf(),
        ensures
            started(s, self@, Request::SearchGo { query, limit }),
    {
        begin(&self.cache, Request::SearchGo { query, limit })
    }

    /// Starts a lookup of a symbol or item of a module.
    pub fn lookup_item(&self, package_name: String, item_path: String, version: Option<String>) -> (s: Step)
        requires
            self.wf(),
        ensures
            started(s, self@, Request::LookupGoItem { package_name, item_path, version }),
    {
        begin(&self.cache, Request::LookupGoItem { package_name, item_path, version })
    }
}

} // verus!
