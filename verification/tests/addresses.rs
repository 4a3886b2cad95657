use blockchain_asset_querier::address::{
    eth_address_hex, get_contract_address, parse_eth_address, AddressManager,
};
use blockchain_asset_querier::defines::{
    NetworkType, QueryError, SupportedContract, SupportedContractType,
};

#[test]
fn parse_and_canonical_text() {
    let a = parse_eth_address("0x5FaB721a3fa13c0219EB24C121f9F6482f64f274").unwrap();
    assert_eq!(a.bytes.len(), 20);
    assert_eq!(a.bytes[0], 0x5F);
    assert_eq!(a.bytes[19], 0x74);
    assert_eq!(
        eth_address_hex(&a),
        "0x5fab721a3fa13c0219eb24c121f9f6482f64f274"
    );
}

#[test]
fn parse_accepts_missing_prefix() {
    let with = parse_eth_address("0x5FaB721a3fa13c0219EB24C121f9F6482f64f274").unwrap();
    let without = parse_eth_address("5FaB721a3fa13c0219EB24C121f9F6482f64f274").unwrap();
    assert_eq!(with, without);
}

#[test]
fn parse_rejects_bad_text() {
    assert_eq!(parse_eth_address(""), Err(QueryError::InvalidAddress));
    assert_eq!(parse_eth_address("0x"), Err(QueryError::InvalidAddress));
    assert_eq!(
        parse_eth_address("0x5FaB721a3fa13c0219EB24C121f9F6482f64f27"),
        Err(QueryError::InvalidAddress)
    );
    assert_eq!(
        parse_eth_address("0x5FaB721a3fa13c0219EB24C121f9F6482f64f2744"),
        Err(QueryError::InvalidAddress)
    );
    assert_eq!(
        parse_eth_address("0x5FaB721a3fa13c0219EB24C121f9F6482f64f27g"),
        Err(QueryError::InvalidAddress)
    );
}

#[test]
fn contract_address_per_network() {
    let a = get_contract_address(
        SupportedContractType::NamiLandGameItemNFT,
        NetworkType::GoerliTestnet,
    )
    .unwrap();
    assert_eq!(
        eth_address_hex(&a),
        "0x5fab721a3fa13c0219eb24c121f9f6482f64f274"
    );
    assert_eq!(
        get_contract_address(
            SupportedContractType::NamiLandGameItemNFT,
            NetworkType::EthereumMainnet,
        ),
        Err(QueryError::UnsupportedNetwork)
    );
    assert_eq!(
        get_contract_address(
            SupportedContractType::NamiLandGameItemNFT,
            NetworkType::BSCMainNetwork,
        ),
        Err(QueryError::UnsupportedNetwork)
    );
    assert_eq!(
        get_contract_address(SupportedContractType::NAMIX, NetworkType::GoerliTestnet),
        Err(QueryError::UnsupportedContract)
    );
    assert_eq!(
        get_contract_address(SupportedContractType::FISHX, NetworkType::GoerliTestnet),
        Err(QueryError::UnsupportedContract)
    );
}

#[test]
fn legacy_contract_table() {
    let manager = AddressManager::default();
    assert_eq!(
        manager.get_contract_address(
            SupportedContract::NECOTokenContract,
            NetworkType::BSCMainNetwork,
        ),
        Ok("0xd23891FC1A515A88C571064637502e3766819e2d")
    );
    assert_eq!(
        manager.get_contract_address(
            SupportedContract::NECOTokenContract,
            NetworkType::BSCTestNetwork,
        ),
        Ok("0xafA98d54481a9aE468AB21b9268609fF50795795")
    );
    assert_eq!(
        manager.get_contract_address(
            SupportedContract::NecoNFTContract,
            NetworkType::BSCTestNetwork,
        ),
        Ok("0xEB1C424A31490A9B141126838a3c625647f22BDc")
    );
    assert_eq!(
        manager.get_contract_address(
            SupportedContract::BUSDTokenContract,
            NetworkType::BSCMainNetwork,
        ),
        manager.get_contract_address(
            SupportedContract::BUSDTokenContract,
            NetworkType::BSCTestNetwork,
        ),
    );
    assert_eq!(
        manager.get_contract_address(
            SupportedContract::StakeNecoForFeeContract,
            NetworkType::GoerliTestnet,
        ),
        Err(QueryError::UnsupportedNetwork)
    );
}
