//! The catalog provider: the fixed, ordered set of catalog identifiers
//! checked for each game client.  Pure and deterministic — no input, no
//! state, the same catalog every time.

use vstd::prelude::*;
use crate::defines::GameClient;

verus! {

/// The NamiLand game-item catalog, in its defined order.
pub open spec fn spec_namiland_catalog() -> Seq<u64> {
    seq![
        10001u64, 10002, 10003, 10004, 10005, 10006, 10007, 11001, 11002, 11003, 11004, 11005,
        11006, 11007, 12001, 12002, 13001, 13002, 13003, 13004, 13005, 13006, 13007, 13008, 13009,
        13010, 13011, 13012, 13013, 13014, 13015, 13016, 14001, 14002, 14003, 14004, 14005, 14006,
        14007, 14008, 14009, 14010, 14011, 14012, 14013, 14014, 14015, 14016,
    ]
}

/// The catalog an ownership request walks for a game client.
pub open spec fn spec_catalog_for(g: GameClient) -> Seq<u64> {
    match g {
        GameClient::NamiLand => spec_namiland_catalog(),
    }
}

/// All supported game-item identifiers for NamiLand, in catalog order.
#[verifier::rlimit(100)]
pub fn namiland_game_item_nft_ids() -> (ids: Vec<u64>)
    ensures
        ids@ == spec_namiland_catalog(),
{
    let mut ids: Vec<u64> = Vec::new();
    ids.push(10001);
    ids.push(10002);
    ids.push(10003);
    ids.push(10004);
    ids.push(10005);
    ids.push(10006);
    ids.push(10007);
    ids.push(11001);
    ids.push(11002);
    ids.push(11003);
    ids.push(11004);
    ids.push(11005);
    ids.push(11006);
    ids.push(11007);
    ids.push(12001);
    ids.push(12002);
    ids.push(13001);
    ids.push(13002);
    ids.push(13003);
    ids.push(13004);
    ids.push(13005);
    ids.push(13006);
    ids.push(13007);
    ids.push(13008);
    ids.push(13009);
    ids.push(13010);
    ids.push(13011);
    ids.push(13012);
    ids.push(13013);
    ids.push(13014);
    ids.push(13015);
    ids.push(13016);
    ids.push(14001);
    ids.push(14002);
    ids.push(14003);
    ids.push(14004);
    ids.push(14005);
    ids.push(14006);
    ids.push(14007);
    ids.push(14008);
    ids.push(14009);
    ids.push(14010);
    ids.push(14011);
    ids.push(14012);
    ids.push(14013);
    ids.push(14014);
    ids.push(14015);
    ids.push(14016);
    proof {
        assert(ids@ =~= spec_namiland_catalog());
    }
    ids
}

/// The fixed catalog of identifiers the resolver checks for a game client,
/// in its defined order.
pub fn ids_for(game_client: &GameClient) -> (ids: Vec<u64>)
    ensures
        ids@ == spec_catalog_for(*game_client),
{
    match game_client {
        GameClient::NamiLand => namiland_game_item_nft_ids(),
    }
}

/// Catalog identifiers never repeat: every identifier appears exactly once
/// in a game client's catalog.
pub proof fn lemma_catalog_distinct(g: GameClient)
    ensures
        forall|i: int, j: int|
            0 <= i < j < spec_catalog_for(g).len() ==> spec_catalog_for(g)[i]
                != spec_catalog_for(g)[j],
{
    let s = spec_catalog_for(g);
    assert(forall|i: int| 0 <= i < s.len() - 1 ==> #[trigger] s[i] < s[i + 1]) by {
        assert(s == spec_namiland_catalog());
    }
    assert forall|i: int, j: int| 0 <= i < j < s.len() implies s[i] != s[j] by {
        lemma_increasing_span(s, i, j);
    }
}

/// In a sequence whose adjacent elements strictly increase, any earlier
/// element is smaller than any later one.
proof fn lemma_increasing_span(s: Seq<u64>, i: int, j: int)
    requires
        forall|k: int| 0 <= k < s.len() - 1 ==> #[trigger] s[k] < s[k + 1],
        0 <= i < j < s.len(),
    ensures
        s[i] < s[j],
    decreases j - i,
{
    if i + 1 < j {
        lemma_increasing_span(s, i + 1, j);
    }
}

} // verus!
