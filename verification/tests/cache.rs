use blockchain_asset_querier::cache::{MetadataCache, MetadataStep};
use blockchain_asset_querier::models::NamiLandERC1155NFTMetadata;

fn metadata_named(name: &str) -> NamiLandERC1155NFTMetadata {
    let mut m = NamiLandERC1155NFTMetadata::default();
    m.name = name.to_string();
    m
}

/// A stand-in metadata source that counts how often it is consulted.
struct CountingSource {
    locator_calls: usize,
    fetch_calls: usize,
}

impl CountingSource {
    fn locator_for(&mut self, nft_id: u64) -> String {
        self.locator_calls += 1;
        format!("ipfs/{}.json", nft_id)
    }

    fn fetch_and_parse(&mut self, locator: &str) -> NamiLandERC1155NFTMetadata {
        self.fetch_calls += 1;
        metadata_named(locator)
    }
}

/// The two-hop resolution flow a fan-out unit runs against the cache.
fn resolve(cache: &mut MetadataCache, source: &mut CountingSource, nft_id: u64)
    -> NamiLandERC1155NFTMetadata
{
    loop {
        let action = match cache.next_step(nft_id) {
            MetadataStep::Done(m) => return m.clone(),
            MetadataStep::NeedLocator => None,
            MetadataStep::NeedFetch(url) => Some(url.to_string()),
        };
        match action {
            None => {
                let url = source.locator_for(nft_id);
                cache.store_locator(nft_id, url);
            }
            Some(url) => {
                let metadata = source.fetch_and_parse(&url);
                cache.store_metadata(nft_id, metadata.clone());
                return metadata;
            }
        }
    }
}

#[test]
fn miss_resolves_in_two_hops() {
    let mut cache = MetadataCache::new();
    let mut source = CountingSource { locator_calls: 0, fetch_calls: 0 };
    assert!(matches!(cache.next_step(10001), MetadataStep::NeedLocator));
    let m = resolve(&mut cache, &mut source, 10001);
    assert_eq!(m.name, "ipfs/10001.json");
    assert_eq!(source.locator_calls, 1);
    assert_eq!(source.fetch_calls, 1);
}

#[test]
fn second_resolution_never_consults_the_source() {
    let mut cache = MetadataCache::new();
    let mut source = CountingSource { locator_calls: 0, fetch_calls: 0 };
    let first = resolve(&mut cache, &mut source, 10002);
    let second = resolve(&mut cache, &mut source, 10002);
    assert_eq!(first, second);
    // One locator resolution, one fetch: the hit answered from the cache.
    assert_eq!(source.locator_calls, 1);
    assert_eq!(source.fetch_calls, 1);
    assert!(matches!(cache.next_step(10002), MetadataStep::Done(_)));
}

#[test]
fn entries_are_per_identifier() {
    let mut cache = MetadataCache::new();
    let mut source = CountingSource { locator_calls: 0, fetch_calls: 0 };
    let a = resolve(&mut cache, &mut source, 10001);
    let b = resolve(&mut cache, &mut source, 10002);
    assert_ne!(a.name, b.name);
    assert_eq!(source.fetch_calls, 2);
    assert!(matches!(cache.next_step(14016), MetadataStep::NeedLocator));
}

#[test]
fn locator_hop_is_cached_separately() {
    let mut cache = MetadataCache::new();
    cache.store_locator(13010, "ipfs/13010.json".to_string());
    match cache.next_step(13010) {
        MetadataStep::NeedFetch(url) => assert_eq!(url, "ipfs/13010.json"),
        _ => panic!("expected the fetch step"),
    }
    assert_eq!(cache.cached_metadata(13010), None);
    assert_eq!(
        cache.cached_locator(13010),
        Some(&"ipfs/13010.json".to_string())
    );
}

#[test]
fn same_time_miss_stampede_is_harmless() {
    // Two requests share one cache and race on the same uncached
    // identifier: both see the miss before either stores, both fetch, and
    // the last write wins with the identical value.
    let mut cache = MetadataCache::new();
    let mut source = CountingSource { locator_calls: 0, fetch_calls: 0 };

    // Both units observe the miss.
    assert!(matches!(cache.next_step(11003), MetadataStep::NeedLocator));
    assert!(matches!(cache.next_step(11003), MetadataStep::NeedLocator));

    // Both perform the full two-hop resolution independently.
    let url_a = source.locator_for(11003);
    let url_b = source.locator_for(11003);
    cache.store_locator(11003, url_a.clone());
    cache.store_locator(11003, url_b.clone());
    let m_a = source.fetch_and_parse(&url_a);
    let m_b = source.fetch_and_parse(&url_b);
    cache.store_metadata(11003, m_a.clone());
    cache.store_metadata(11003, m_b.clone());

    // The source was consulted twice — the documented stampede — and both
    // requests still see correct, identical metadata.
    assert_eq!(source.fetch_calls, 2);
    assert_eq!(m_a, m_b);
    match cache.next_step(11003) {
        MetadataStep::Done(m) => assert_eq!(*m, m_a),
        _ => panic!("expected the metadata to be cached"),
    }
}
