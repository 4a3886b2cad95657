//! The wire-level request parameters, as plain values.  The HTTP layer
//! deserializes into these shapes and hands them to the validation
//! functions; nothing here is trusted or validated yet.

use vstd::prelude::*;

verus! {

/// Balance request for a fungible token (current parameter names).
#[derive(Debug, Clone, PartialEq)]
pub struct GetERC20BalanceRequest {
    pub chain_id: u8,
    pub contract_type: String,
    pub public_address: String,
}

/// Ownership request for the game-item catalog (current parameter names).
#[derive(Debug, Clone, PartialEq)]
pub struct GetNFTOwnershipRequest {
    pub chain_id: u8,
    pub game_client: u8,
    pub public_address: String,
}

/// Staking summary request.
#[derive(Debug, Clone, PartialEq)]
pub struct GetNECOStakedInfoRequest {
    pub chain_id: u8,
    pub public_address: String,
}

/// Metadata request for one catalog identifier.
#[derive(Debug, Clone, PartialEq)]
pub struct GetERC1155NFTMetadataRequest {
    pub chain_id: u8,
    pub nft_id: String,
}

/// Balance request for a fungible token (legacy parameter names).
#[derive(Debug, Clone, PartialEq)]
pub struct GetErc20BalanceRequest {
    pub network: u8,
    pub contract_type: String,
    pub public_address: String,
}

/// Ownership request for the game-item catalog (legacy parameter names).
#[derive(Debug, Clone, PartialEq)]
pub struct GetNftOwnershipRequest {
    pub network: u8,
    pub game_client: u8,
    pub public_address: String,
}

} // verus!
