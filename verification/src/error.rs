//! What a call can fail with.

use crate::chain::{Coin, CoinView};
use vstd::prelude::*;

verus! {

/// A failure of storage, of a query or of an address check.
#[allow(inconsistent_fields)]
#[derive(Debug, PartialEq, Eq)]
pub enum StdError {
    /// Nothing is stored where a value of this kind was looked for.
    NotFound { kind: String },
    /// Text is no Base64.
    InvalidBase64 { msg: String },
    /// Bytes are not as many as there should be.
    InvalidDataSize { expected: u64, actual: u64 },
    /// Text is no hexadecimal number.
    InvalidHex { msg: String },
    /// Bytes are no text.
    InvalidUtf8 { msg: String },
    /// A value of this type cannot be read.
    ParseErr { target_type: String, msg: String },
    /// A value of this type cannot be written.
    SerializeErr { source_type: String, msg: String },
    /// Any other failure, with its text.
    GenericErr { msg: String },
}

/// The model of a [`StdError`].
#[allow(inconsistent_fields)]
pub enum StdErrorView {
    NotFound { kind: Seq<char> },
    InvalidBase64 { msg: Seq<char> },
    InvalidDataSize { expected: u64, actual: u64 },
    InvalidHex { msg: Seq<char> },
    InvalidUtf8 { msg: Seq<char> },
    ParseErr { target_type: Seq<char>, msg: Seq<char> },
    SerializeErr { source_type: Seq<char>, msg: Seq<char> },
    GenericErr { msg: Seq<char> },
}

impl DeepView for StdError {
    type V = StdErrorView;

    open spec fn deep_view(&self) -> StdErrorView {
        match self {
            StdError::NotFound { kind } => StdErrorView::NotFound { kind: kind@ },
            StdError::InvalidBase64 { msg } => StdErrorView::InvalidBase64 { msg: msg@ },
            StdError::InvalidDataSize { expected, actual } =>
                StdErrorView::InvalidDataSize { expected: *expected, actual: *actual },
            StdError::InvalidHex { msg } => StdErrorView::InvalidHex { msg: msg@ },
            StdError::InvalidUtf8 { msg } => StdErrorView::InvalidUtf8 { msg: msg@ },
            StdError::ParseErr { target_type, msg } =>
                StdErrorView::ParseErr { target_type: target_type@, msg: msg@ },
            StdError::SerializeErr { source_type, msg } =>
                StdErrorView::SerializeErr { source_type: source_type@, msg: msg@ },
            StdError::GenericErr { msg } => StdErrorView::GenericErr { msg: msg@ },
        }
    }
}

impl Clone for StdError {
    fn clone(&self) -> (copy: Self)
        ensures
            copy.deep_view() == self.deep_view(),
    {
        match self {
            StdError::NotFound { kind } => StdError::NotFound { kind: kind.clone() },
            StdError::InvalidBase64 { msg } => StdError::InvalidBase64 { msg: msg.clone() },
            StdError::InvalidDataSize { expected, actual } =>
                StdError::InvalidDataSize { expected: *expected, actual: *actual },
            StdError::InvalidHex { msg } => StdError::InvalidHex { msg: msg.clone() },
            StdError::InvalidUtf8 { msg } => StdError::InvalidUtf8 { msg: msg.clone() },
            StdError::ParseErr { target_type, msg } =>
                StdError::ParseErr { target_type: target_type.clone(), msg: msg.clone() },
            StdError::SerializeErr { source_type, msg } =>
                StdError::SerializeErr { source_type: source_type.clone(), msg: msg.clone() },
            StdError::GenericErr { msg } => StdError::GenericErr { msg: msg.clone() },
        }
    }
}

/// The funds sent with a message are not what it takes.
#[derive(Debug, PartialEq, Eq)]
pub enum PaymentError {
    /// The wanted denomination is not among the funds.
    MissingDenom(String),
    /// A denomination that is not taken is among the funds.
    ExtraDenom(String),
    /// More than one coin was sent.
    MultipleDenoms {},
    /// Nothing was sent.
    NoFunds {},
    /// Something was sent where nothing is taken.
    NonPayable {},
}

/// The model of a [`PaymentError`].
pub enum PaymentErrorView {
    MissingDenom(Seq<char>),
    ExtraDenom(Seq<char>),
    MultipleDenoms {},
    NoFunds {},
    NonPayable {},
}

impl DeepView for PaymentError {
    type V = PaymentErrorView;

    open spec fn deep_view(&self) -> PaymentErrorView {
        match self {
            PaymentError::MissingDenom(denom) => PaymentErrorView::MissingDenom(denom@),
            PaymentError::ExtraDenom(denom) => PaymentErrorView::ExtraDenom(denom@),
            PaymentError::MultipleDenoms {  } => PaymentErrorView::MultipleDenoms {  },
            PaymentError::NoFunds {  } => PaymentErrorView::NoFunds {  },
            PaymentError::NonPayable {  } => PaymentErrorView::NonPayable {  },
        }
    }
}

/// A fee is not covered.
#[derive(Debug, PartialEq, Eq)]
pub enum FeeError {
    /// The fee that is due, and the lower amount that was sent.
    InsufficientFee(u128, u128),
    /// The funds cannot be read as a fee.
    Payment(PaymentError),
}

/// The model of a [`FeeError`].
pub enum FeeErrorView {
    InsufficientFee(u128, u128),
    Payment(PaymentErrorView),
}

impl DeepView for FeeError {
    type V = FeeErrorView;

    open spec fn deep_view(&self) -> FeeErrorView {
        match self {
            FeeError::InsufficientFee(due, sent) => FeeErrorView::InsufficientFee(*due, *sent),
            FeeError::Payment(e) => FeeErrorView::Payment(e.deep_view()),
        }
    }
}

/// Why a message is refused.
#[allow(inconsistent_fields)]
#[derive(Debug, PartialEq, Eq)]
pub enum ContractError {
    Std(StdError),
    Payment(PaymentError),
    /// The base token URI is no URL; the text says why.
    ParseError(String),
    Fee(FeeError),
    Unauthorized(String),
    InvalidReplyID {},
    TokenIdAlreadySold { token_id: u32 },
    ZeroBalance {},
    /// The payment, and the price that was due.
    IncorrectPaymentAmount(Coin, Coin),
    InvalidNumTokens { max: u32, min: u32 },
    SoldOut {},
    InvalidDenom { expected: String, got: String },
    InsufficientMintPrice { expected: u128, got: u128 },
    InvalidTokenId {},
    AlreadyStarted {},
    WhitelistAlreadyStarted {},
    /// The start time asked for, and the present time.
    InvalidStartTime(u64, u64),
    InstantiateSg721Error {},
    InvalidBaseTokenURI {},
    NotWhitelisted { addr: String },
    BeforeMintStartTime {},
    BeforeGenesisTime {},
    InvalidPerAddressLimit { max: u32, min: u32, got: u32 },
    MaxPerAddressLimitExceeded {},
}

/// The model of a [`ContractError`].
#[allow(inconsistent_fields)]
pub enum ContractErrorView {
    Std(StdErrorView),
    Payment(PaymentErrorView),
    ParseError(Seq<char>),
    Fee(FeeErrorView),
    Unauthorized(Seq<char>),
    InvalidReplyID {},
    TokenIdAlreadySold { token_id: u32 },
    ZeroBalance {},
    IncorrectPaymentAmount(CoinView, CoinView),
    InvalidNumTokens { max: u32, min: u32 },
    SoldOut {},
    InvalidDenom { expected: Seq<char>, got: Seq<char> },
    InsufficientMintPrice { expected: u128, got: u128 },
    InvalidTokenId {},
    AlreadyStarted {},
    WhitelistAlreadyStarted {},
    InvalidStartTime(u64, u64),
    InstantiateSg721Error {},
    InvalidBaseTokenURI {},
    NotWhitelisted { addr: Seq<char> },
    BeforeMintStartTime {},
    BeforeGenesisTime {},
    InvalidPerAddressLimit { max: u32, min: u32, got: u32 },
    MaxPerAddressLimitExceeded {},
}

impl DeepView for ContractError {
    type V = ContractErrorView;

    open spec fn deep_view(&self) -> ContractErrorView {
        match self {
            ContractError::Std(e) => ContractErrorView::Std(e.deep_view()),
            ContractError::Payment(e) => ContractErrorView::Payment(e.deep_view()),
            ContractError::ParseError(text) => ContractErrorView::ParseError(text@),
            ContractError::Fee(e) => ContractErrorView::Fee(e.deep_view()),
            ContractError::Unauthorized(text) => ContractErrorView::Unauthorized(text@),
            ContractError::InvalidReplyID {  } => ContractErrorView::InvalidReplyID {  },
            ContractError::TokenIdAlreadySold { token_id } =>
                ContractErrorView::TokenIdAlreadySold { token_id: *token_id },
            ContractError::ZeroBalance {  } => ContractErrorView::ZeroBalance {  },
            ContractError::IncorrectPaymentAmount(sent, due) =>
                ContractErrorView::IncorrectPaymentAmount(sent.deep_view(), due.deep_view()),
            ContractError::InvalidNumTokens { max, min } =>
                ContractErrorView::InvalidNumTokens { max: *max, min: *min },
            ContractError::SoldOut {  } => ContractErrorView::SoldOut {  },
            ContractError::InvalidDenom { expected, got } =>
                ContractErrorView::InvalidDenom { expected: expected@, got: got@ },
            ContractError::InsufficientMintPrice { expected, got } =>
                ContractErrorView::InsufficientMintPrice { expected: *expected, got: *got },
            ContractError::InvalidTokenId {  } => ContractErrorView::InvalidTokenId {  },
            ContractError::AlreadyStarted {  } => ContractErrorView::AlreadyStarted {  },
            ContractError::WhitelistAlreadyStarted {  } =>
                ContractErrorView::WhitelistAlreadyStarted {  },
            ContractError::InvalidStartTime(start_time, now) =>
                ContractErrorView::InvalidStartTime(*start_time, *now),
            ContractError::InstantiateSg721Error {  } =>
                ContractErrorView::InstantiateSg721Error {  },
            ContractError::InvalidBaseTokenURI {  } => ContractErrorView::InvalidBaseTokenURI {  },
            ContractError::NotWhitelisted { addr } =>
                ContractErrorView::NotWhitelisted { addr: addr@ },
            ContractError::BeforeMintStartTime {  } => ContractErrorView::BeforeMintStartTime {  },
            ContractError::BeforeGenesisTime {  } => ContractErrorView::BeforeGenesisTime {  },
            ContractError::InvalidPerAddressLimit { max, min, got } =>
                ContractErrorView::InvalidPerAddressLimit { max: *max, min: *min, got: *got },
            ContractError::MaxPerAddressLimitExceeded {  } =>
                ContractErrorView::MaxPerAddressLimitExceeded {  },
        }
    }
}

} // verus!
