//! The documentation aggregator.
use vstd::prelude::*;
use crate::cache::{DocCache, read_back};
use crate::request::{Request, n_candidates};
use crate::session::{Step, Pending, Outcome, begin, resume, started, resumed};

verus! {

/// Client of the documentation aggregator, with a cache of its own.
#[derive(Clone)]
pub struct DevDocsClient {
    cache: DocCache,
}

impl View for DevDocsClient {
    type V = Map<Seq<char>, Seq<char>>;

    closed spec fn view(&self) -> Map<Seq<char>, Seq<char>> {
        self.cache@
    }
}

impl DevDocsClient {
    /// The cache is well formed.
    pub closed spec fn wf(&self) -> bool {
        self.cache.wf()
    }

    /// A client with an empty cache.
    pub fn new() -> (r: DevDocsClient)
        ensures
            r.wf(),
            r@ == Map::<Seq<char>, Seq<char>>::empty(),
    {
        DevDocsClient { cache: DocCache::new() }
    }

    /// The client's cache.
    pub fn cache_ref(&self) -> (r: &DocCache)
        ensures
            r@ == self@,
            r.wf() == self.wf(),
    {
        &self.cache
    }

    /// The text cached under `key`.
    pub fn get_cache(&self, key: &str) -> (r: Option<String>)
        requires
            self.wf(),
        ensures
            read_back(r, self@, key@),
    {
        self.cache.get(key)
    }

    /// Caches `value` under `key`.
    pub fn set_cache(&mut self, key: String, value: String)
        requires
            old(self).wf(),
        ensures
            final(self).wf(),
            final(self)@ == old(self)@.insert(key@, value@),
    {
        self.cache.set(key, value)
    }

    /// Continues a call of this client with the answer to its pending fetch.
    pub fn resume(&mut self, pending: Pending, outcome: Outcome) -> (s: Step)
        requires
            old(self).wf(),
            pending.attempt < n_candidates(pending.request),
        ensures
            final(self).wf(),
            resumed(s, old(self)@, final(self)@, pending, outcome),
    {
        resume(&mut self.cache, pending, outcome)
    }

    /// Starts the listing of the documentation sets.
    pub fn list_documentations(&self) -> (s: Step)
        requires
            self.wf(),
        ensures
            started(s, self@, Request::ListDevdocs),
    {
        begin(&self.cache, Request::ListDevdocs)
    }

    /// Starts a lookup of a documentation set, or of one entry of it.
    pub fn get_documentation(&self, slug: String, entry: Option<String>) -> (s: Step)
        requires
            self.wf(),
        ensures
            started(s, self@, Request::GetDevdocs { slug, entry }),
    {
        begin(&self.cache, Request::GetDevdocs { slug, entry })
    }

    /// Starts a search within a documentation set.
    pub fn search_documentation(&self, slug: String, query: String) -> (s: Step)
        requires
            self.wf(),
        ensures
            started(s, self@, Request::SearchDevdocs { slug, query }),
    {
        begin(&self.cache, Request::SearchDevdocs { slug, query })
    }
}

} // verus!
