//! Upfront validation and the small response summaries.
//!
//! Everything a request needs checked before any work is dispatched lives
//! here: chain-id and game-client codes, contract-type names, address text,
//! and catalog-identifier text.  Validation fails fast with a typed error
//! and spawns nothing; the checks run in the order the handlers apply them,
//! so the error a caller sees matches that order.

use vstd::prelude::*;
use crate::address::{
    parse_eth_address, eth_address_hex, spec_address_bytes, spec_address_hex,
    spec_valid_address_text, EthAddress,
};
use crate::defines::{GameClient, NetworkType, QueryError, SupportedContractType};
use crate::digits::{parse_dec_u64, spec_all_digits, spec_dec_value};
use crate::models::{ERC20Token, NamiXStakedInfo};
use crate::requests::GetNFTOwnershipRequest;

verus! {

/// Whether two pieces of text are the same characters.
fn str_eq(a: &str, b: &str) -> (r: bool)
    ensures
        r == (a@ == b@),
{
    let sa = a.to_owned();
    let sb = b.to_owned();
    sa == sb
}

/// The network a chain id denotes in the current handlers: 1 is the
/// Ethereum main network and 5 the Goerli test network; every other id is
/// unsupported.
pub fn network_from_chain_id(chain_id: u8) -> (r: Result<NetworkType, QueryError>)
    ensures
        match r {
            Result::Ok(n) => (chain_id == 1 && n == NetworkType::EthereumMainnet) || (chain_id == 5
                && n == NetworkType::GoerliTestnet),
            Result::Err(e) => chain_id != 1 && chain_id != 5 && e == QueryError::UnsupportedNetwork,
        },
{
    if chain_id == 1 {
        Result::Ok(NetworkType::EthereumMainnet)
    } else if chain_id == 5 {
        Result::Ok(NetworkType::GoerliTestnet)
    } else {
        Result::Err(QueryError::UnsupportedNetwork)
    }
}

/// The network a code denotes in the legacy handlers: 0 is the BSC main
/// network and 1 the BSC test network; every other code is unsupported.
pub fn network_from_code(code: u8) -> (r: Result<NetworkType, QueryError>)
    ensures
        match r {
            Result::Ok(n) => (code == 0 && n == NetworkType::BSCMainNetwork) || (code == 1 && n
                == NetworkType::BSCTestNetwork),
            Result::Err(e) => code != 0 && code != 1 && e == QueryError::UnsupportedNetwork,
        },
{
    if code == 0 {
        Result::Ok(NetworkType::BSCMainNetwork)
    } else if code == 1 {
        Result::Ok(NetworkType::BSCTestNetwork)
    } else {
        Result::Err(QueryError::UnsupportedNetwork)
    }
}

/// The game client a code denotes: 0 is NamiLand; every other code is
/// unsupported.
pub fn game_client_from_code(code: u8) -> (r: Result<GameClient, QueryError>)
    ensures
        match r {
            Result::Ok(g) => code == 0 && g == GameClient::NamiLand,
            Result::Err(e) => code != 0 && e == QueryError::UnsupportedCollection,
        },
{
    if code == 0 {
        Result::Ok(GameClient::NamiLand)
    } else {
        Result::Err(QueryError::UnsupportedCollection)
    }
}

/// The contract kind a token name denotes: `neco` and `nfish`; every other
/// name is unsupported.
pub fn contract_type_from_name(name: &str) -> (r: Result<SupportedContractType, QueryError>)
    ensures
        match r {
            Result::Ok(t) => (name@ == "neco"@ && t == SupportedContractType::NAMIX) || (name@
                == "nfish"@ && t == SupportedContractType::FISHX),
            Result::Err(e) => name@ != "neco"@ && name@ != "nfish"@ && e
                == QueryError::UnsupportedContract,
        },
{
    if str_eq(name, "neco") {
        Result::Ok(SupportedContractType::NAMIX)
    } else if str_eq(name, "nfish") {
        Result::Ok(SupportedContractType::FISHX)
    } else {
        Result::Err(QueryError::UnsupportedContract)
    }
}

/// The catalog identifier that decimal text denotes.  Succeeds exactly on
/// non-empty all-digit text whose value fits; everything else is an invalid
/// identifier.
pub fn nft_id_from_text(text: &str) -> (r: Result<u64, QueryError>)
    ensures
        match r {
            Result::Ok(v) => spec_all_digits(text@) && text@.len() > 0 && v == spec_dec_value(
                text@,
            ),
            Result::Err(e) => (text@.len() == 0 || !spec_all_digits(text@) || spec_dec_value(text@)
                > u64::MAX) && e == QueryError::InvalidId,
        },
{
    match parse_dec_u64(text) {
        Option::Some(v) => Result::Ok(v),
        Option::None => Result::Err(QueryError::InvalidId),
    }
}

/// An ownership request after upfront validation: the parsed account
/// address with its canonical text, the game client, and the network.
#[derive(Debug, Clone, PartialEq)]
pub struct ValidatedOwnershipQuery {
    pub public_address: EthAddress,
    pub canonical_address: String,
    pub game_client: GameClient,
    pub network: NetworkType,
}

/// Validates an ownership request before any work is dispatched, in the
/// order the handler applies the checks: the game-client code first, then
/// the chain id, then the address text.  The first failing check decides
/// the error; nothing is spawned on failure.
pub fn validate_nft_ownership_request(request: &GetNFTOwnershipRequest) -> (r: Result<
    ValidatedOwnershipQuery,
    QueryError,
>)
    ensures
        match r {
            Result::Ok(q) => {
                &&& request.game_client == 0
                &&& q.game_client == GameClient::NamiLand
                &&& (request.chain_id == 1 || request.chain_id == 5)
                &&& q.network == (if request.chain_id == 1 {
                    NetworkType::EthereumMainnet
                } else {
                    NetworkType::GoerliTestnet
                })
                &&& spec_valid_address_text(request.public_address@)
                &&& q.public_address.wf()
                &&& q.public_address.bytes@ == spec_address_bytes(request.public_address@)
                &&& q.canonical_address@ == spec_address_hex(q.public_address.bytes@)
            },
            Result::Err(e) => {
                ||| (request.game_client != 0 && e == QueryError::UnsupportedCollection)
                ||| (request.game_client == 0 && request.chain_id != 1 && request.chain_id != 5
                    && e == QueryError::UnsupportedNetwork)
                ||| (request.game_client == 0 && (request.chain_id == 1 || request.chain_id == 5)
                    && !spec_valid_address_text(request.public_address@) && e
                    == QueryError::InvalidAddress)
            },
        },
{
    let game_client = match game_client_from_code(request.game_client) {
        Result::Ok(g) => g,
        Result::Err(e) => {
            return Result::Err(e);
        },
    };
    let network = match network_from_chain_id(request.chain_id) {
        Result::Ok(n) => n,
        Result::Err(e) => {
            return Result::Err(e);
        },
    };
    let public_address = match parse_eth_address(request.public_address.as_str()) {
        Result::Ok(a) => a,
        Result::Err(e) => {
            return Result::Err(e);
        },
    };
    let canonical_address = eth_address_hex(&public_address);
    Result::Ok(ValidatedOwnershipQuery { public_address, canonical_address, game_client, network })
}

/// The token summary a balance request returns.  A failed symbol lookup
/// falls back to `unknown`, a failed balance to `0`, a failed decimal count
/// to zero: per-call failures never surface.
pub fn erc20_token_summary(
    symbol: Option<String>,
    amount: Option<String>,
    decimal: Option<u8>,
) -> (t: ERC20Token)
    ensures
        t@.symbol == (match symbol {
            Option::Some(s) => s@,
            Option::None => "unknown"@,
        }),
        t@.amount == (match amount {
            Option::Some(a) => a@,
            Option::None => "0"@,
        }),
        t.decimal == (match decimal {
            Option::Some(d) => d,
            Option::None => 0u8,
        }),
{
    let symbol = match symbol {
        Option::Some(s) => s,
        Option::None => String::from_str("unknown"),
    };
    let amount = match amount {
        Option::Some(a) => a,
        Option::None => String::from_str("0"),
    };
    let decimal = match decimal {
        Option::Some(d) => d,
        Option::None => 0,
    };
    ERC20Token { symbol, decimal, amount }
}

/// The staking summary currently returned: the queried address with zeroed
/// amount and time — the staking lookups are switched off.
pub fn staked_info_summary(public_address: String) -> (r: NamiXStakedInfo)
    ensures
        r@.public_address == public_address@,
        r@.staked_amount == "0"@,
        r@.staked_time == "0"@,
{
    NamiXStakedInfo {
        public_address,
        staked_amount: String::from_str("0"),
        staked_time: String::from_str("0"),
    }
}

} // verus!
