//! The repository summary cache: a concurrent map from repository name to a
//! previously computed summary. Read-through, populate-on-miss, last-writer-
//! wins, no eviction and no TTL. The map itself comes from the `dashmap`
//! crate; its behaviour is taken on trust through the contracts below, and
//! everything built on top of it is verified against them.

use vstd::prelude::*;

use crate::models::{RepositoryInfo, RepositoryInfoV};

verus! {

/// A concurrent name-to-summary map.
#[verifier::external_body]
pub struct SummaryCache {
    map: std::sync::Arc<dashmap::DashMap<String, RepositoryInfo>>,
}

/// The entries a cache currently holds, keyed by repository name.
pub uninterp spec fn cache_entries(c: &SummaryCache) -> Map<Seq<char>, RepositoryInfoV>;

impl View for SummaryCache {
    type V = Map<Seq<char>, RepositoryInfoV>;

    open spec fn view(&self) -> Map<Seq<char>, RepositoryInfoV> {
        cache_entries(self)
    }
}

impl SummaryCache {
    /// Relies on `dashmap::DashMap::new`: a freshly created map is empty.
    #[verifier::external_body]
    pub(crate) fn new() -> (c: SummaryCache)
        ensures
            c@ == (Map::<Seq<char>, RepositoryInfoV>::empty()),
    {
        SummaryCache { map: std::sync::Arc::new(dashmap::DashMap::new()) }
    }

    /// Relies on `dashmap::DashMap::get`: a non-blocking point lookup that
    /// returns the entry under the key if there is one. The caller receives
    /// a clone of the stored summary.
    #[verifier::external_body]
    pub(crate) fn get(&self, name: &str) -> (r: Option<RepositoryInfo>)
        ensures
            match r {
                Some(info) => cache_entries(self).contains_key(name@) && info.deep_view()
                    == cache_entries(self)[name@],
                None => !cache_entries(self).contains_key(name@),
            },
    {
        self.map.get(name).map(|entry| entry.value().clone())
    }

    /// Relies on `dashmap::DashMap::insert`: an upsert of the entry under the
    /// key, replacing a previous entry if there was one.
    #[verifier::external_body]
    pub(crate) fn put(&mut self, name: String, info: RepositoryInfo)
        ensures
            cache_entries(final(self)) == cache_entries(old(self)).insert(name@, info.deep_view()),
    {
        self.map.insert(name, info);
    }
}

} // verus!
