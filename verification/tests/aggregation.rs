use blockchain_asset_querier::aggregate::{
    assemble_report, ids_all_distinct, try_assemble_report, unit_outcome, Aggregator, Completion,
};
use blockchain_asset_querier::defines::NetworkType;
use blockchain_asset_querier::models::NamiLandERC1155NFTMetadata;

fn named_metadata(name: &str) -> NamiLandERC1155NFTMetadata {
    let mut m = NamiLandERC1155NFTMetadata::default();
    m.name = name.to_string();
    m
}

fn completion(nft_id: u64, amount: u64, name: &str) -> Completion {
    unit_outcome(
        nft_id,
        Some(amount),
        if amount > 0 { Some(named_metadata(name)) } else { None },
    )
}

#[test]
fn textual_sort_order_scenario() {
    // Catalog 9999, 10001, 10002; balances 1, 0, 2; metadata name "X".
    let completions = vec![
        completion(9999, 1, "X"),
        completion(10001, 0, "X"),
        completion(10002, 2, "X"),
    ];
    let report = assemble_report(
        "0x5fab721a3fa13c0219eb24c121f9f6482f64f274".to_string(),
        NetworkType::GoerliTestnet,
        "0xdddddddddddddddddddddddddddddddddddddddd".to_string(),
        completions,
    );
    // "10002" sorts before "9999" textually, and the zero amount is gone.
    assert_eq!(report.ownerships.len(), 2);
    assert_eq!(report.ownerships[0].nft_id, "10002");
    assert_eq!(report.ownerships[0].amount, 2);
    assert_eq!(report.ownerships[0].nft_metadata.name, "X");
    assert_eq!(report.ownerships[1].nft_id, "9999");
    assert_eq!(report.ownerships[1].amount, 1);
    assert_eq!(report.ownerships[1].nft_metadata.name, "X");
}

#[test]
fn ledger_failure_reported_as_not_owned() {
    // Five identifiers; the ledger query for 12002 fails (balance None).
    let completions = vec![
        unit_outcome(10001, Some(3), Some(named_metadata("A"))),
        unit_outcome(10002, Some(1), Some(named_metadata("B"))),
        unit_outcome(12002, None, None),
        unit_outcome(13001, Some(2), Some(named_metadata("C"))),
        unit_outcome(14016, Some(5), Some(named_metadata("D"))),
    ];
    let report = assemble_report(
        "0x5fab721a3fa13c0219eb24c121f9f6482f64f274".to_string(),
        NetworkType::GoerliTestnet,
        "0xdddddddddddddddddddddddddddddddddddddddd".to_string(),
        completions,
    );
    let ids: Vec<&str> = report.ownerships.iter().map(|i| i.nft_id.as_str()).collect();
    assert_eq!(ids, vec!["10001", "10002", "13001", "14016"]);
    assert!(!ids.contains(&"12002"));
    assert_eq!(report.ownerships[0].amount, 3);
    assert_eq!(report.ownerships[3].amount, 5);
}

#[test]
fn metadata_failure_keeps_real_balance() {
    // Owned, but the metadata source failed: default metadata, real amount.
    let c = unit_outcome(13010, Some(7), None);
    assert_eq!(c.amount, 7);
    assert_eq!(c.nft_metadata, NamiLandERC1155NFTMetadata::default());
}

#[test]
fn zero_balance_ignores_metadata() {
    let c = unit_outcome(13010, Some(0), Some(named_metadata("ignored")));
    assert_eq!(c.amount, 0);
    assert_eq!(c.nft_metadata, NamiLandERC1155NFTMetadata::default());
}

#[test]
fn all_zero_balances_yield_empty_items() {
    let completions = vec![
        unit_outcome(10001, Some(0), None),
        unit_outcome(10002, None, None),
        unit_outcome(10003, Some(0), None),
    ];
    let report = assemble_report(
        "0x5fab721a3fa13c0219eb24c121f9f6482f64f274".to_string(),
        NetworkType::GoerliTestnet,
        "0xdddddddddddddddddddddddddddddddddddddddd".to_string(),
        completions,
    );
    assert!(report.ownerships.is_empty());
}

#[test]
fn five_completions_join_exactly() {
    // A coordinator given a catalog of size 5 is complete after exactly 5
    // completions, whatever order they arrive in.
    let mut agg = Aggregator::new(5);
    let arrival = [13001u64, 10001, 14016, 10002, 12002];
    for (k, id) in arrival.iter().enumerate() {
        assert!(!agg.is_complete());
        assert_eq!(agg.received(), k);
        assert!(!agg.has_seen(*id));
        agg.accept(completion(*id, 1, "X"));
        assert!(agg.has_seen(*id));
    }
    assert_eq!(agg.received(), 5);
    assert!(agg.is_complete());
    let report = agg.finish(
        "0x5fab721a3fa13c0219eb24c121f9f6482f64f274".to_string(),
        NetworkType::GoerliTestnet,
        "0xdddddddddddddddddddddddddddddddddddddddd".to_string(),
    );
    assert_eq!(report.ownerships.len(), 5);
}

#[test]
fn arrival_order_is_immaterial() {
    // The same completions in two arrival orders give identical reports.
    let build = |order: &[u64]| {
        let completions: Vec<Completion> = order
            .iter()
            .map(|id| completion(*id, *id % 3, &format!("item-{}", id)))
            .collect();
        assemble_report(
            "0x5fab721a3fa13c0219eb24c121f9f6482f64f274".to_string(),
            NetworkType::GoerliTestnet,
            "0xdddddddddddddddddddddddddddddddddddddddd".to_string(),
            completions,
        )
    };
    let forward = build(&[9999, 10001, 10002, 13010, 14016, 777]);
    let shuffled = build(&[777, 14016, 10002, 9999, 13010, 10001]);
    assert_eq!(forward, shuffled);
}

#[test]
fn duplicate_identifier_is_refused() {
    let completions = vec![completion(10001, 1, "A"), completion(10001, 2, "B")];
    let report = try_assemble_report(
        "0x5fab721a3fa13c0219eb24c121f9f6482f64f274".to_string(),
        NetworkType::GoerliTestnet,
        "0xdddddddddddddddddddddddddddddddddddddddd".to_string(),
        completions,
    );
    assert!(report.is_none());
}

#[test]
fn full_catalog_resolution() {
    let ids = blockchain_asset_querier::catalog::namiland_game_item_nft_ids();
    let completions: Vec<Completion> = ids
        .iter()
        .map(|id| completion(*id, id % 2, "Y"))
        .collect();
    let report = assemble_report(
        "0x5fab721a3fa13c0219eb24c121f9f6482f64f274".to_string(),
        NetworkType::GoerliTestnet,
        "0xdddddddddddddddddddddddddddddddddddddddd".to_string(),
        completions,
    );
    let owned = ids.iter().filter(|id| *id % 2 == 1).count();
    assert_eq!(report.ownerships.len(), owned);
    for pair in report.ownerships.windows(2) {
        assert!(pair[0].nft_id < pair[1].nft_id);
    }
    assert!(report.ownerships.iter().all(|i| i.amount > 0));
}

#[test]
fn distinctness_check() {
    assert!(ids_all_distinct(&vec![
        completion(1, 0, ""),
        completion(2, 0, ""),
        completion(3, 0, ""),
    ]));
    assert!(!ids_all_distinct(&vec![
        completion(1, 0, ""),
        completion(2, 0, ""),
        completion(1, 0, ""),
    ]));
    assert!(ids_all_distinct(&Vec::new()));
}
