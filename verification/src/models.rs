//! Data model of the ownership report and the other values the service
//! returns, together with their mathematical views.

use vstd::prelude::*;
use crate::defines::NetworkType;

verus! {

/// Summary of a fungible token balance.
#[derive(Debug, Clone, PartialEq)]
pub struct ERC20Token {
    pub symbol: String,
    pub decimal: u8,
    pub amount: String,
}

/// View of an [`ERC20Token`].
#[verifier::ext_equal]
pub struct ERC20TokenView {
    pub symbol: Seq<char>,
    pub decimal: u8,
    pub amount: Seq<char>,
}

impl View for ERC20Token {
    type V = ERC20TokenView;

    open spec fn view(&self) -> ERC20TokenView {
        ERC20TokenView { symbol: self.symbol@, decimal: self.decimal, amount: self.amount@ }
    }
}

/// Staking summary for one account.
#[derive(Debug, Clone, PartialEq)]
pub struct NamiXStakedInfo {
    pub public_address: String,
    pub staked_amount: String,
    pub staked_time: String,
}

/// View of a [`NamiXStakedInfo`].
#[verifier::ext_equal]
pub struct NamiXStakedInfoView {
    pub public_address: Seq<char>,
    pub staked_amount: Seq<char>,
    pub staked_time: Seq<char>,
}

impl View for NamiXStakedInfo {
    type V = NamiXStakedInfoView;

    open spec fn view(&self) -> NamiXStakedInfoView {
        NamiXStakedInfoView {
            public_address: self.public_address@,
            staked_amount: self.staked_amount@,
            staked_time: self.staked_time@,
        }
    }
}

/// One descriptive attribute of a catalog item.
#[derive(Debug, Clone, PartialEq)]
pub struct NFTTrait {
    pub trait_type: String,
    pub value: String,
}

/// View of an [`NFTTrait`].
#[verifier::ext_equal]
pub struct NFTTraitView {
    pub trait_type: Seq<char>,
    pub value: Seq<char>,
}

impl View for NFTTrait {
    type V = NFTTraitView;

    open spec fn view(&self) -> NFTTraitView {
        NFTTraitView { trait_type: self.trait_type@, value: self.value@ }
    }
}

/// Descriptive metadata of one catalog item.  An all-empty value stands for
/// "metadata unknown": the per-item policy substitutes it when the metadata
/// source fails.
#[derive(Debug, Clone, PartialEq)]
pub struct NamiLandERC1155NFTMetadata {
    pub id: String,
    pub name: String,
    pub description: String,
    pub nft_type1: String,
    pub nft_type2: String,
    pub image: String,
    pub external_url: String,
    pub attributes: Vec<NFTTrait>,
}

/// View of a [`NamiLandERC1155NFTMetadata`].
#[verifier::ext_equal]
pub struct MetadataView {
    pub id: Seq<char>,
    pub name: Seq<char>,
    pub description: Seq<char>,
    pub nft_type1: Seq<char>,
    pub nft_type2: Seq<char>,
    pub image: Seq<char>,
    pub external_url: Seq<char>,
    pub attributes: Seq<NFTTraitView>,
}

impl View for NamiLandERC1155NFTMetadata {
    type V = MetadataView;

    open spec fn view(&self) -> MetadataView {
        MetadataView {
            id: self.id@,
            name: self.name@,
            description: self.description@,
            nft_type1: self.nft_type1@,
            nft_type2: self.nft_type2@,
            image: self.image@,
            external_url: self.external_url@,
            attributes: self.attributes@.map_values(|t: NFTTrait| t@),
        }
    }
}

/// The view of the all-empty "metadata unknown" value.
pub open spec fn spec_default_metadata() -> MetadataView {
    MetadataView {
        id: Seq::<char>::empty(),
        name: Seq::<char>::empty(),
        description: Seq::<char>::empty(),
        nft_type1: Seq::<char>::empty(),
        nft_type2: Seq::<char>::empty(),
        image: Seq::<char>::empty(),
        external_url: Seq::<char>::empty(),
        attributes: Seq::<NFTTraitView>::empty(),
    }
}

impl Default for NamiLandERC1155NFTMetadata {
    /// The all-empty "metadata unknown" value.
    fn default() -> (r: Self)
        ensures
            r@ == spec_default_metadata(),
    {
        let r = NamiLandERC1155NFTMetadata {
            id: String::new(),
            name: String::new(),
            description: String::new(),
            nft_type1: String::new(),
            nft_type2: String::new(),
            image: String::new(),
            external_url: String::new(),
            attributes: Vec::new(),
        };
        proof {
            assert(r@.attributes =~= Seq::<NFTTraitView>::empty());
            assert(r@ =~= spec_default_metadata());
        }
        r
    }
}

/// One catalog item held by an account: the identifier's decimal text, the
/// held amount, and the item's metadata.
#[derive(Debug, Clone, PartialEq)]
pub struct OwnershipItem {
    pub nft_id: String,
    pub amount: u64,
    pub nft_metadata: NamiLandERC1155NFTMetadata,
}

/// View of an [`OwnershipItem`].
#[verifier::ext_equal]
pub struct OwnershipItemView {
    pub nft_id: Seq<char>,
    pub amount: u64,
    pub nft_metadata: MetadataView,
}

impl View for OwnershipItem {
    type V = OwnershipItemView;

    open spec fn view(&self) -> OwnershipItemView {
        OwnershipItemView {
            nft_id: self.nft_id@,
            amount: self.amount,
            nft_metadata: self.nft_metadata@,
        }
    }
}

/// The final ownership report: which catalog items an account holds, sorted
/// by the textual form of the identifier, zero amounts excluded.
#[derive(Debug, Clone, PartialEq)]
pub struct NamiLandNFTOwnership {
    pub public_address: String,
    pub network: NetworkType,
    pub contract_address: String,
    pub ownerships: Vec<OwnershipItem>,
}

/// View of a [`NamiLandNFTOwnership`].
#[verifier::ext_equal]
pub struct OwnershipReportView {
    pub public_address: Seq<char>,
    pub network: NetworkType,
    pub contract_address: Seq<char>,
    pub ownerships: Seq<OwnershipItemView>,
}

impl View for NamiLandNFTOwnership {
    type V = OwnershipReportView;

    open spec fn view(&self) -> OwnershipReportView {
        OwnershipReportView {
            public_address: self.public_address@,
            network: self.network,
            contract_address: self.contract_address@,
            ownerships: self.ownerships@.map_values(|x: OwnershipItem| x@),
        }
    }
}

/// The body of a response that carries no payload.
#[derive(Debug, Clone, PartialEq, Eq, Structural)]
pub struct EmptyData {}

impl Default for EmptyData {
    fn default() -> (r: Self)
        ensures
            r == (EmptyData {}),
    {
        EmptyData {}
    }
}

/// The contract addresses configured for one network.
#[derive(Debug, Clone, PartialEq)]
pub struct Address {
    pub neco: String,
    pub nfish: String,
    pub busd: String,
    pub neco_nft: String,
    pub stake_neco_for_fee: String,
}

/// Contract address configuration, one entry per supported network.
#[derive(Debug, Clone, PartialEq)]
pub struct AddressConfig {
    pub bsc_test: Address,
    pub bsc_main: Address,
}

} // verus!
