//! The memoizing metadata cache.
//!
//! Descriptive metadata is resolved in two hops — identifier to content
//! locator, locator to parsed metadata — and both hops are cached by
//! identifier, populated lazily on first success and never evicted.  The
//! cache itself performs no fetch: [`MetadataCache::next_step`] says what the
//! resolution flow must do next, and the flow stores what it fetched.
//! Concurrent misses on one identifier may each fetch independently; both
//! stores write the same value, so the last write wins harmlessly.

use vstd::prelude::*;
use std::collections::HashMap;
use crate::models::NamiLandERC1155NFTMetadata;

verus! {

broadcast use vstd::std_specs::hash::group_hash_axioms;

/// What the resolution flow must do next for an identifier, given the
/// cache's current contents.
pub enum MetadataStep<'a> {
    /// The metadata is cached: resolution is done without consulting the
    /// metadata source again.
    Done(&'a NamiLandERC1155NFTMetadata),
    /// Nothing is cached for the identifier: resolve its content locator
    /// first, then store it.
    NeedLocator,
    /// The locator is cached but the metadata is not: fetch and parse the
    /// document at this locator, then store the result.
    NeedFetch(&'a str),
}

/// Locator-by-id and metadata-by-id, each immutable once written.
pub struct MetadataCache {
    locator_by_id: HashMap<u64, String>,
    metadata_by_id: HashMap<u64, NamiLandERC1155NFTMetadata>,
}

impl MetadataCache {
    /// The cached locators by identifier.
    pub closed spec fn spec_locators(self) -> Map<u64, String> {
        self.locator_by_id@
    }

    /// The cached metadata by identifier.
    pub closed spec fn spec_metadata(self) -> Map<u64, NamiLandERC1155NFTMetadata> {
        self.metadata_by_id@
    }

    /// An empty cache: nothing resolved yet.
    pub fn new() -> (c: MetadataCache)
        ensures
            c.spec_locators() == Map::<u64, String>::empty(),
            c.spec_metadata() == Map::<u64, NamiLandERC1155NFTMetadata>::empty(),
    {
        MetadataCache { locator_by_id: HashMap::new(), metadata_by_id: HashMap::new() }
    }

    /// The next step of the two-hop resolution for `nft_id`.  Cached metadata
    /// is final: once a resolution for an identifier has succeeded, this
    /// returns `Done` — the metadata source is never consulted again for it.
    pub fn next_step(&self, nft_id: u64) -> (s: MetadataStep<'_>)
        ensures
            match s {
                MetadataStep::Done(m) => self.spec_metadata().contains_key(nft_id) && *m
                    == self.spec_metadata()[nft_id],
                MetadataStep::NeedFetch(url) => !self.spec_metadata().contains_key(nft_id)
                    && self.spec_locators().contains_key(nft_id) && url@
                    == self.spec_locators()[nft_id]@,
                MetadataStep::NeedLocator => !self.spec_metadata().contains_key(nft_id)
                    && !self.spec_locators().contains_key(nft_id),
            },
    {
        match self.metadata_by_id.get(&nft_id) {
            Option::Some(m) => MetadataStep::Done(m),
            Option::None => match self.locator_by_id.get(&nft_id) {
                Option::Some(url) => MetadataStep::NeedFetch(url.as_str()),
                Option::None => MetadataStep::NeedLocator,
            },
        }
    }

    /// The cached metadata for `nft_id`, if any.
    pub fn cached_metadata(&self, nft_id: u64) -> (m: Option<&NamiLandERC1155NFTMetadata>)
        ensures
            match m {
                Option::Some(m) => self.spec_metadata().contains_key(nft_id) && *m
                    == self.spec_metadata()[nft_id],
                Option::None => !self.spec_metadata().contains_key(nft_id),
            },
    {
        self.metadata_by_id.get(&nft_id)
    }

    /// The cached locator for `nft_id`, if any.
    pub fn cached_locator(&self, nft_id: u64) -> (url: Option<&String>)
        ensures
            match url {
                Option::Some(url) => self.spec_locators().contains_key(nft_id) && *url
                    == self.spec_locators()[nft_id],
                Option::None => !self.spec_locators().contains_key(nft_id),
            },
    {
        self.locator_by_id.get(&nft_id)
    }

    /// Stores a freshly resolved locator.  Nothing else changes; a second
    /// store for the same identifier overwrites (last write wins).
    pub fn store_locator(&mut self, nft_id: u64, url: String)
        ensures
            final(self).spec_locators() == old(self).spec_locators().insert(nft_id, url),
            final(self).spec_metadata() == old(self).spec_metadata(),
    {
        self.locator_by_id.insert(nft_id, url);
    }

    /// Stores freshly fetched metadata.  Nothing else changes; a second
    /// store for the same identifier overwrites (last write wins).
    pub fn store_metadata(&mut self, nft_id: u64, metadata: NamiLandERC1155NFTMetadata)
        ensures
            final(self).spec_metadata() == old(self).spec_metadata().insert(nft_id, metadata),
            final(self).spec_locators() == old(self).spec_locators(),
    {
        self.metadata_by_id.insert(nft_id, metadata);
    }
}

/// Cache-hit idempotence: once metadata for an identifier is cached, any
/// later store — for this or any other identifier — leaves it cached, so
/// [`MetadataCache::next_step`] keeps answering `Done` for it and the
/// metadata source is never consulted again within the process.  A store
/// for another identifier does not even change the cached value; only the
/// documented same-time-miss race rewrites it, with the identical value.
pub proof fn lemma_cached_entry_persists(
    before: Map<u64, NamiLandERC1155NFTMetadata>,
    nft_id: u64,
    stored_id: u64,
    stored_value: NamiLandERC1155NFTMetadata,
)
    requires
        before.contains_key(nft_id),
    ensures
        before.insert(stored_id, stored_value).contains_key(nft_id),
        stored_id != nft_id ==> before.insert(stored_id, stored_value)[nft_id] == before[nft_id],
{
}

} // verus!
