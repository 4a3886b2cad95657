//! Shared definitions: networks, collection selectors, token and contract
//! kinds, and the typed errors that upfront validation can surface.

use vstd::prelude::*;

verus! {

/// The ledger networks a query may address.
#[derive(Debug, PartialEq, Eq, Structural, Hash, Clone, Copy)]
pub enum NetworkType {
    EthereumMainnet,
    GoerliTestnet,
    BSCMainNetwork,
    BSCTestNetwork,
}

/// The textual name of a network, as it appears in reports and logs.
pub open spec fn spec_network_name(n: NetworkType) -> Seq<char> {
    match n {
        NetworkType::EthereumMainnet => "EthereumMainnet"@,
        NetworkType::GoerliTestnet => "GoerliTestnet"@,
        NetworkType::BSCMainNetwork => "bsc_main_network"@,
        NetworkType::BSCTestNetwork => "bsc_test_network"@,
    }
}

impl NetworkType {
    /// The textual name of the network.
    pub fn name(&self) -> (r: &'static str)
        ensures
            r@ == spec_network_name(*self),
    {
        match self {
            NetworkType::EthereumMainnet => "EthereumMainnet",
            NetworkType::GoerliTestnet => "GoerliTestnet",
            NetworkType::BSCMainNetwork => "bsc_main_network",
            NetworkType::BSCTestNetwork => "bsc_test_network",
        }
    }
}

impl Default for NetworkType {
    /// The network assumed when none is given.
    fn default() -> (r: Self)
        ensures
            r == NetworkType::EthereumMainnet,
    {
        NetworkType::EthereumMainnet
    }
}

/// The game clients whose catalogs the resolver knows.
#[derive(Debug, PartialEq, Eq, Structural, Clone, Copy)]
pub enum GameClient {
    NamiLand,
}

/// The textual name of a game client.
pub open spec fn spec_game_client_name(g: GameClient) -> Seq<char> {
    match g {
        GameClient::NamiLand => "namiland"@,
    }
}

impl GameClient {
    /// The textual name of the game client.
    pub fn name(&self) -> (r: &'static str)
        ensures
            r@ == spec_game_client_name(*self),
    {
        match self {
            GameClient::NamiLand => "namiland",
        }
    }
}

/// The fungible tokens whose balances the service can report.
#[derive(Debug, PartialEq, Eq, Structural, Clone, Copy)]
pub enum SupportedERC20Token {
    NAMIX,
    FISHX,
    ETH,
    USDC,
    USDT,
}

/// The textual name of a token.
pub open spec fn spec_token_name(t: SupportedERC20Token) -> Seq<char> {
    match t {
        SupportedERC20Token::NAMIX => "NAMIX"@,
        SupportedERC20Token::FISHX => "FISHX"@,
        SupportedERC20Token::ETH => "ETH"@,
        SupportedERC20Token::USDC => "USDC"@,
        SupportedERC20Token::USDT => "USDT"@,
    }
}

impl SupportedERC20Token {
    /// The textual name of the token.
    pub fn name(&self) -> (r: &'static str)
        ensures
            r@ == spec_token_name(*self),
    {
        match self {
            SupportedERC20Token::NAMIX => "NAMIX",
            SupportedERC20Token::FISHX => "FISHX",
            SupportedERC20Token::ETH => "ETH",
            SupportedERC20Token::USDC => "USDC",
            SupportedERC20Token::USDT => "USDT",
        }
    }
}

/// The on-chain contracts a query may be routed to.
#[derive(Debug, PartialEq, Eq, Structural, Clone, Copy)]
pub enum SupportedContractType {
    NAMIX,
    FISHX,
    NamiLandGameItemNFT,
}

/// The legacy contract table's entries, one per deployed contract.
#[derive(Debug, PartialEq, Eq, Structural, Clone, Copy)]
pub enum SupportedContract {
    BUSDTokenContract,
    NECOTokenContract,
    NFISHTokenContract,
    NecoNFTContract,
    StakeNecoForFeeContract,
}

/// The typed errors that upfront validation surfaces to the caller.
/// Per-item ledger or metadata failures never appear here: they are
/// absorbed by the per-identifier outcome policy.
#[derive(Debug, PartialEq, Eq, Structural, Clone, Copy)]
pub enum QueryError {
    InvalidAddress,
    InvalidId,
    UnsupportedNetwork,
    UnsupportedCollection,
    UnsupportedContract,
    MetadataUnavailable,
}

/// The message a caller sees for each error.
pub open spec fn spec_error_message(e: QueryError) -> Seq<char> {
    match e {
        QueryError::InvalidAddress => "public address is invalid"@,
        QueryError::InvalidId => "nft id is invalid"@,
        QueryError::UnsupportedNetwork => "network is not supported."@,
        QueryError::UnsupportedCollection => "game client type error"@,
        QueryError::UnsupportedContract => "contract type is not supported."@,
        QueryError::MetadataUnavailable => "metadata is unavailable"@,
    }
}

impl QueryError {
    /// The message a caller sees for this error.
    pub fn message(&self) -> (r: &'static str)
        ensures
            r@ == spec_error_message(*self),
    {
        match self {
            QueryError::InvalidAddress => "public address is invalid",
            QueryError::InvalidId => "nft id is invalid",
            QueryError::UnsupportedNetwork => "network is not supported.",
            QueryError::UnsupportedCollection => "game client type error",
            QueryError::UnsupportedContract => "contract type is not supported.",
            QueryError::MetadataUnavailable => "metadata is unavailable",
        }
    }
}

} // verus!
