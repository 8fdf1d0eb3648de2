//! The messages that the contract takes and the answers that it gives.

use crate::chain::{Coin, CoinView};
use vstd::prelude::*;

verus! {

/// The share of sales that a collection's creator receives.
#[derive(Debug, PartialEq, Eq)]
pub struct RoyaltyInfo {
    pub payment_address: String,
    /// In units of 10^-18.
    pub share: u128,
}

/// The presentation of a collection. The minter hands it on unread.
#[derive(Debug, PartialEq, Eq)]
pub struct CollectionInfo {
    pub creator: String,
    pub description: String,
    pub image: String,
    pub external_link: Option<String>,
    pub royalty_info: Option<RoyaltyInfo>,
}

/// Makes the token contract.
#[derive(Debug, PartialEq, Eq)]
pub struct Sg721InstantiateMsg {
    pub name: String,
    pub symbol: String,
    pub minter: String,
    pub collection_info: CollectionInfo,
}

/// The model of a [`Sg721InstantiateMsg`].
pub struct Sg721InstantiateMsgView {
    pub name: Seq<char>,
    pub symbol: Seq<char>,
    pub minter: Seq<char>,
    pub collection_info: CollectionInfo,
}

impl DeepView for Sg721InstantiateMsg {
    type V = Sg721InstantiateMsgView;

    open spec fn deep_view(&self) -> Sg721InstantiateMsgView {
        Sg721InstantiateMsgView {
            name: self.name@,
            symbol: self.symbol@,
            minter: self.minter@,
            collection_info: self.collection_info,
        }
    }
}

/// Sets up a sale.
#[derive(Debug, PartialEq, Eq)]
pub struct InstantiateMsg {
    pub base_token_uri: String,
    pub num_tokens: u32,
    pub sg721_code_id: u64,
    pub sg721_instantiate_msg: Sg721InstantiateMsg,
    /// In nanoseconds since the epoch.
    pub start_time: u64,
    pub per_address_limit: u32,
    pub unit_price: Coin,
    pub whitelist: Option<String>,
}

/// What can be asked of a sale that is set up.
#[derive(Debug, PartialEq, Eq)]
pub enum ExecuteMsg {
    /// Mints a token that chance picks, for the sender.
    Mint {},
    SetWhitelist { whitelist: String },
    UpdateStartTime(u64),
    UpdatePerAddressLimit { per_address_limit: u32 },
    /// Mints a token that chance picks, for someone else.
    MintTo { recipient: String },
    /// Mints a given token for someone else.
    MintFor { token_id: u32, recipient: String },
    Shuffle {},
    Withdraw {},
}

/// What can be read of a sale.
#[derive(Debug, PartialEq, Eq)]
pub enum QueryMsg {
    Config {},
    MintableNumTokens {},
    StartTime {},
    MintPrice {},
    MintCount { address: String },
    MintableTokens {},
}

/// How a sale is set up.
#[derive(Debug, PartialEq, Eq)]
pub struct ConfigResponse {
    pub admin: String,
    pub base_token_uri: String,
    pub num_tokens: u32,
    pub per_address_limit: u32,
    pub sg721_address: String,
    pub sg721_code_id: u64,
    pub start_time: u64,
    pub unit_price: Coin,
    pub whitelist: Option<String>,
}

/// The model of a [`ConfigResponse`].
pub struct ConfigResponseView {
    pub admin: Seq<char>,
    pub base_token_uri: Seq<char>,
    pub num_tokens: u32,
    pub per_address_limit: u32,
    pub sg721_address: Seq<char>,
    pub sg721_code_id: u64,
    pub start_time: u64,
    pub unit_price: CoinView,
    pub whitelist: Option<Seq<char>>,
}

impl DeepView for ConfigResponse {
    type V = ConfigResponseView;

    open spec fn deep_view(&self) -> ConfigResponseView {
        ConfigResponseView {
            admin: self.admin@,
            base_token_uri: self.base_token_uri@,
            num_tokens: self.num_tokens,
            per_address_limit: self.per_address_limit,
            sg721_address: self.sg721_address@,
            sg721_code_id: self.sg721_code_id,
            start_time: self.start_time,
            unit_price: self.unit_price.deep_view(),
            whitelist: self.whitelist.deep_view(),
        }
    }
}

/// What a mint costs.
#[derive(Debug, PartialEq, Eq)]
pub struct MintPriceResponse {
    pub public_price: Coin,
    pub whitelist_price: Option<Coin>,
    pub current_price: Coin,
}

/// The model of a [`MintPriceResponse`].
pub struct MintPriceResponseView {
    pub public_price: CoinView,
    pub whitelist_price: Option<CoinView>,
    pub current_price: CoinView,
}

impl DeepView for MintPriceResponse {
    type V = MintPriceResponseView;

    open spec fn deep_view(&self) -> MintPriceResponseView {
        MintPriceResponseView {
            public_price: self.public_price.deep_view(),
            whitelist_price: self.whitelist_price.deep_view(),
            current_price: self.current_price.deep_view(),
        }
    }
}

/// How many tokens an address has minted.
#[derive(Debug, PartialEq, Eq)]
pub struct MintCountResponse {
    pub address: String,
    pub count: u32,
}

/// The model of a [`MintCountResponse`].
pub struct MintCountResponseView {
    pub address: Seq<char>,
    pub count: u32,
}

impl DeepView for MintCountResponse {
    type V = MintCountResponseView;

    open spec fn deep_view(&self) -> MintCountResponseView {
        MintCountResponseView { address: self.address@, count: self.count }
    }
}

/// The answer to a [`QueryMsg`].
#[derive(Debug, PartialEq, Eq)]
pub enum QueryResponse {
    Config(ConfigResponse),
    /// How many tokens are left.
    MintableNumTokens { count: u32 },
    /// The start time as text, in seconds with nine decimals.
    StartTime { start_time: String },
    MintPrice(MintPriceResponse),
    MintCount(MintCountResponse),
    /// The position and the id of each token that is left.
    MintableTokens { mintable_tokens: Vec<(u32, u32)> },
}

/// The model of a [`QueryResponse`].
pub enum QueryResponseView {
    Config(ConfigResponseView),
    MintableNumTokens { count: u32 },
    StartTime { start_time: Seq<char> },
    MintPrice(MintPriceResponseView),
    MintCount(MintCountResponseView),
    MintableTokens { mintable_tokens: Seq<(u32, u32)> },
}

impl DeepView for QueryResponse {
    type V = QueryResponseView;

    open spec fn deep_view(&self) -> QueryResponseView {
        match self {
            QueryResponse::Config(config) => QueryResponseView::Config(config.deep_view()),
            QueryResponse::MintableNumTokens { count } =>
                QueryResponseView::MintableNumTokens { count: *count },
            QueryResponse::StartTime { start_time } =>
                QueryResponseView::StartTime { start_time: start_time@ },
            QueryResponse::MintPrice(price) => QueryResponseView::MintPrice(price.deep_view()),
            QueryResponse::MintCount(count) => QueryResponseView::MintCount(count.deep_view()),
            QueryResponse::MintableTokens { mintable_tokens } =>
                QueryResponseView::MintableTokens { mintable_tokens: mintable_tokens@ },
        }
    }
}

/// The chain's report on the making of the token contract.
#[derive(Debug, PartialEq, Eq)]
pub struct Reply {
    pub id: u64,
    /// The bytes that the call returned, if any, or why it failed.
    pub result: Result<Option<Vec<u8>>, String>,
}

} // verus!
