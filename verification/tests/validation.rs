use blockchain_asset_querier::catalog::{ids_for, namiland_game_item_nft_ids};
use blockchain_asset_querier::defines::{
    GameClient, NetworkType, QueryError, SupportedContractType, SupportedERC20Token,
};
use blockchain_asset_querier::models::{EmptyData, NamiLandERC1155NFTMetadata};
use blockchain_asset_querier::requests::GetNFTOwnershipRequest;
use blockchain_asset_querier::resolver::{
    contract_type_from_name, erc20_token_summary, game_client_from_code, network_from_chain_id,
    network_from_code, nft_id_from_text, staked_info_summary, validate_nft_ownership_request,
};
use blockchain_asset_querier::response::{NecoResult, Response};

#[test]
fn network_codes() {
    assert_eq!(network_from_chain_id(1), Ok(NetworkType::EthereumMainnet));
    assert_eq!(network_from_chain_id(5), Ok(NetworkType::GoerliTestnet));
    assert_eq!(network_from_chain_id(0), Err(QueryError::UnsupportedNetwork));
    assert_eq!(network_from_chain_id(56), Err(QueryError::UnsupportedNetwork));
    assert_eq!(network_from_code(0), Ok(NetworkType::BSCMainNetwork));
    assert_eq!(network_from_code(1), Ok(NetworkType::BSCTestNetwork));
    assert_eq!(network_from_code(2), Err(QueryError::UnsupportedNetwork));
}

#[test]
fn game_client_codes() {
    assert_eq!(game_client_from_code(0), Ok(GameClient::NamiLand));
    assert_eq!(game_client_from_code(1), Err(QueryError::UnsupportedCollection));
}

#[test]
fn contract_type_names() {
    assert_eq!(contract_type_from_name("neco"), Ok(SupportedContractType::NAMIX));
    assert_eq!(contract_type_from_name("nfish"), Ok(SupportedContractType::FISHX));
    assert_eq!(contract_type_from_name("busd"), Err(QueryError::UnsupportedContract));
    assert_eq!(contract_type_from_name(""), Err(QueryError::UnsupportedContract));
}

#[test]
fn nft_id_text() {
    assert_eq!(nft_id_from_text("10001"), Ok(10001));
    assert_eq!(nft_id_from_text("x"), Err(QueryError::InvalidId));
    assert_eq!(nft_id_from_text(""), Err(QueryError::InvalidId));
}

#[test]
fn ownership_request_validation() {
    let ok = validate_nft_ownership_request(&GetNFTOwnershipRequest {
        chain_id: 5,
        game_client: 0,
        public_address: "0x5FaB721a3fa13c0219EB24C121f9F6482f64f274".to_string(),
    })
    .unwrap();
    assert_eq!(ok.network, NetworkType::GoerliTestnet);
    assert_eq!(ok.game_client, GameClient::NamiLand);
    assert_eq!(
        ok.canonical_address,
        "0x5fab721a3fa13c0219eb24c121f9f6482f64f274"
    );

    // The game-client check comes first, even when the chain id is bad too.
    let err = validate_nft_ownership_request(&GetNFTOwnershipRequest {
        chain_id: 77,
        game_client: 9,
        public_address: "nonsense".to_string(),
    });
    assert_eq!(err.unwrap_err(), QueryError::UnsupportedCollection);

    let err = validate_nft_ownership_request(&GetNFTOwnershipRequest {
        chain_id: 77,
        game_client: 0,
        public_address: "nonsense".to_string(),
    });
    assert_eq!(err.unwrap_err(), QueryError::UnsupportedNetwork);

    let err = validate_nft_ownership_request(&GetNFTOwnershipRequest {
        chain_id: 1,
        game_client: 0,
        public_address: "nonsense".to_string(),
    });
    assert_eq!(err.unwrap_err(), QueryError::InvalidAddress);
}

#[test]
fn token_summary_defaults() {
    let t = erc20_token_summary(None, None, None);
    assert_eq!(t.symbol, "unknown");
    assert_eq!(t.amount, "0");
    assert_eq!(t.decimal, 0);

    let t = erc20_token_summary(
        Some("NAMIX".to_string()),
        Some("1500000".to_string()),
        Some(18),
    );
    assert_eq!(t.symbol, "NAMIX");
    assert_eq!(t.amount, "1500000");
    assert_eq!(t.decimal, 18);
}

#[test]
fn staked_info_is_zeroed() {
    let s = staked_info_summary("0xabc".to_string());
    assert_eq!(s.public_address, "0xabc");
    assert_eq!(s.staked_amount, "0");
    assert_eq!(s.staked_time, "0");
}

#[test]
fn response_envelopes() {
    let ok: Response<EmptyData> = Response::ok(EmptyData {});
    assert_eq!(ok.status, 200);
    assert_eq!(ok.message, "success");
    assert!(ok.data.is_some());

    let err: Response<EmptyData> = Response::err(400, "chain id is not supported");
    assert_eq!(err.status, 400);
    assert_eq!(err.message, "chain id is not supported");
    assert!(err.data.is_none());

    let legacy: NecoResult<EmptyData> = NecoResult::new(500, "boom".to_string(), None);
    assert_eq!(legacy.status, 500);
    assert_eq!(legacy.message, "boom");
    assert!(legacy.data.is_none());
}

#[test]
fn catalog_contents() {
    let ids = namiland_game_item_nft_ids();
    assert_eq!(ids.len(), 48);
    assert_eq!(ids[0], 10001);
    assert_eq!(ids[47], 14016);
    assert!(ids.contains(&13010));
    assert!(!ids.contains(&9999));
    for i in 0..ids.len() {
        for j in (i + 1)..ids.len() {
            assert_ne!(ids[i], ids[j]);
        }
    }
    assert_eq!(ids_for(&GameClient::NamiLand), ids);
}

#[test]
fn names_and_messages() {
    assert_eq!(NetworkType::EthereumMainnet.name(), "EthereumMainnet");
    assert_eq!(NetworkType::GoerliTestnet.name(), "GoerliTestnet");
    assert_eq!(NetworkType::BSCMainNetwork.name(), "bsc_main_network");
    assert_eq!(NetworkType::BSCTestNetwork.name(), "bsc_test_network");
    assert_eq!(NetworkType::default(), NetworkType::EthereumMainnet);
    assert_eq!(GameClient::NamiLand.name(), "namiland");
    assert_eq!(SupportedERC20Token::NAMIX.name(), "NAMIX");
    assert_eq!(SupportedERC20Token::USDT.name(), "USDT");
    assert_eq!(
        QueryError::UnsupportedNetwork.message(),
        "network is not supported."
    );
    assert_eq!(
        QueryError::InvalidAddress.message(),
        "public address is invalid"
    );
    assert_eq!(QueryError::InvalidId.message(), "nft id is invalid");
    assert_eq!(
        QueryError::UnsupportedCollection.message(),
        "game client type error"
    );
    assert_eq!(
        QueryError::UnsupportedContract.message(),
        "contract type is not supported."
    );
    assert_eq!(
        QueryError::MetadataUnavailable.message(),
        "metadata is unavailable"
    );
}

#[test]
fn default_metadata_is_all_empty() {
    let m = NamiLandERC1155NFTMetadata::default();
    assert_eq!(m.id, "");
    assert_eq!(m.name, "");
    assert_eq!(m.description, "");
    assert_eq!(m.nft_type1, "");
    assert_eq!(m.nft_type2, "");
    assert_eq!(m.image, "");
    assert_eq!(m.external_url, "");
    assert!(m.attributes.is_empty());
}
