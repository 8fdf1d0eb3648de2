//! What the models of the types hold: everything that a value holds, under its own
//! name.

use crate::chain::{
    result_view, Coin, CosmosMsg, CosmosMsgView, Question, QuestionView, Response, Step,
    StepView, SubMsg,
};
use crate::error::{
    ContractError, ContractErrorView, FeeError, FeeErrorView, PaymentError, PaymentErrorView,
    StdError, StdErrorView,
};
use crate::msg::{
    ConfigResponse, MintCountResponse, MintPriceResponse, QueryResponse, QueryResponseView,
    Sg721InstantiateMsg,
};
use crate::state::{Config, State};
use vstd::prelude::*;

verus! {

/// Coins and lists of them.
pub proof fn law_model_of_coins(coin: Coin, coins: Vec<Coin>, i: int)
    ensures
        coin.deep_view().denom == coin.denom@,
        coin.deep_view().amount == coin.amount,
        coins.deep_view().len() == coins@.len(),
        0 <= i < coins@.len() ==> coins.deep_view()[i].denom == coins@[i].denom@
            && coins.deep_view()[i].amount == coins@[i].amount,
{
}

/// Messages that are sent.
pub proof fn law_model_of_messages(
    coins: Vec<Coin>,
    address: String,
    label: String,
    admin: Option<String>,
    bytes: Vec<u8>,
    code_id: u64,
    made: Sg721InstantiateMsg,
    sub: SubMsg,
)
    ensures
        (CosmosMsg::Burn { amount: coins }).deep_view() == (CosmosMsgView::Burn {
            amount: coins.deep_view(),
        }),
        (CosmosMsg::FundCommunityPool { amount: coins }).deep_view() == (
        CosmosMsgView::FundCommunityPool { amount: coins.deep_view() }),
        (CosmosMsg::Send { to_address: address, amount: coins }).deep_view() == (
        CosmosMsgView::Send { to_address: address@, amount: coins.deep_view() }),
        (CosmosMsg::Execute { contract_addr: address, msg: bytes, funds: coins }).deep_view() == (
        CosmosMsgView::Execute {
            contract_addr: address@,
            msg: bytes@,
            funds: coins.deep_view(),
        }),
        (CosmosMsg::Instantiate { admin, code_id, msg: made, funds: coins, label }).deep_view() == (
        CosmosMsgView::Instantiate {
            admin: match admin {
                Some(a) => Some(a@),
                None => None,
            },
            code_id,
            msg: made.deep_view(),
            funds: coins.deep_view(),
            label: label@,
        }),
        made.deep_view().name == made.name@,
        made.deep_view().symbol == made.symbol@,
        made.deep_view().minter == made.minter@,
        made.deep_view().collection_info == made.collection_info,
        sub.deep_view().id == sub.id,
        sub.deep_view().msg == sub.msg.deep_view(),
        sub.deep_view().gas_limit == sub.gas_limit,
        sub.deep_view().reply_on == sub.reply_on,
{
}

/// Responses.
pub proof fn law_model_of_responses(told: Response, i: int)
    ensures
        told.deep_view().attributes.len() == told.attributes@.len(),
        0 <= i < told.attributes@.len() ==> told.deep_view().attributes[i] == (
            told.attributes@[i].0@,
            told.attributes@[i].1@,
        ),
        told.deep_view().messages.len() == told.messages@.len(),
        0 <= i < told.messages@.len() ==> told.deep_view().messages[i]
            == told.messages@[i].deep_view(),
{
}

/// Questions.
pub proof fn law_model_of_questions(a: String, b: String)
    ensures
        (Question::ValidateAddress { input: a }).deep_view() == (QuestionView::ValidateAddress {
            input: a@,
        }),
        (Question::Balance { address: a, denom: b }).deep_view() == (QuestionView::Balance {
            address: a@,
            denom: b@,
        }),
        (Question::WhitelistConfig { whitelist: a }).deep_view() == (
        QuestionView::WhitelistConfig { whitelist: a@ }),
        (Question::HasMember { whitelist: a, member: b }).deep_view() == (QuestionView::HasMember {
            whitelist: a@,
            member: b@,
        }),
        (Question::WhitelistPrice { whitelist: a }).deep_view() == (QuestionView::WhitelistPrice {
            whitelist: a@,
        }),
{
}

/// Results and steps.
pub proof fn law_model_of_steps<T: DeepView, E: DeepView>(value: T, e: E, question: Question)
    ensures
        result_view(Ok::<T, E>(value)) == Ok::<T::V, E::V>(value.deep_view()),
        result_view(Err::<T, E>(e)) == Err::<T::V, E::V>(e.deep_view()),
        Step::<T, E>::Ask(question).deep_view() == StepView::<T::V, E::V>::Ask(
            question.deep_view(),
        ),
        Step::<T, E>::Done(Ok(value)).deep_view() == StepView::<T::V, E::V>::Done(
            Ok(value.deep_view()),
        ),
        Step::<T, E>::Done(Err(e)).deep_view() == StepView::<T::V, E::V>::Done(
            Err(e.deep_view()),
        ),
{
}

/// What a sale keeps.
pub proof fn law_model_of_states(state: State, config: Config)
    ensures
        state.deep_view().config == state.config.deep_view(),
        state.deep_view().sg721_address == (match state.sg721_address {
            Some(a) => Some(a@),
            None => None,
        }),
        state.deep_view().mintable_num_tokens == state.mintable_num_tokens,
        state.deep_view().positions == state.mintable_token_positions@,
        state.deep_view().minters == state.minter_addrs.deep_view(),
        config.deep_view().admin == config.admin@,
        config.deep_view().base_token_uri == config.base_token_uri@,
        config.deep_view().num_tokens == config.num_tokens,
        config.deep_view().sg721_code_id == config.sg721_code_id,
        config.deep_view().start_time == config.start_time,
        config.deep_view().unit_price == config.unit_price.deep_view(),
        config.deep_view().per_address_limit == config.per_address_limit,
        config.deep_view().whitelist == (match config.whitelist {
            Some(a) => Some(a@),
            None => None,
        }),
{
}

/// Answers to queries.
pub proof fn law_model_of_readings(
    config: ConfigResponse,
    prices: MintPriceResponse,
    count: MintCountResponse,
    number: u32,
    text: String,
    list: Vec<(u32, u32)>,
)
    ensures
        config.deep_view().admin == config.admin@,
        config.deep_view().base_token_uri == config.base_token_uri@,
        config.deep_view().num_tokens == config.num_tokens,
        config.deep_view().per_address_limit == config.per_address_limit,
        config.deep_view().sg721_address == config.sg721_address@,
        config.deep_view().sg721_code_id == config.sg721_code_id,
        config.deep_view().start_time == config.start_time,
        config.deep_view().unit_price == config.unit_price.deep_view(),
        config.deep_view().whitelist == (match config.whitelist {
            Some(a) => Some(a@),
            None => None,
        }),
        prices.deep_view().public_price == prices.public_price.deep_view(),
        prices.deep_view().current_price == prices.current_price.deep_view(),
        prices.deep_view().whitelist_price == (match prices.whitelist_price {
            Some(coin) => Some(coin.deep_view()),
            None => None,
        }),
        count.deep_view().address == count.address@,
        count.deep_view().count == count.count,
        QueryResponse::Config(config).deep_view() == QueryResponseView::Config(config.deep_view()),
        QueryResponse::MintPrice(prices).deep_view() == QueryResponseView::MintPrice(
            prices.deep_view(),
        ),
        QueryResponse::MintCount(count).deep_view() == QueryResponseView::MintCount(
            count.deep_view(),
        ),
        (QueryResponse::MintableNumTokens { count: number }).deep_view() == (
        QueryResponseView::MintableNumTokens { count: number }),
        (QueryResponse::StartTime { start_time: text }).deep_view() == (
        QueryResponseView::StartTime { start_time: text@ }),
        (QueryResponse::MintableTokens { mintable_tokens: list }).deep_view() == (
        QueryResponseView::MintableTokens { mintable_tokens: list@ }),
{
}

/// Failures of the chain.
pub proof fn law_model_of_failures(a: String, b: String, m: u64, n: u64)
    ensures
        (StdError::NotFound { kind: a }).deep_view() == (StdErrorView::NotFound { kind: a@ }),
        (StdError::InvalidBase64 { msg: a }).deep_view() == (StdErrorView::InvalidBase64 { msg: a@ }),
        (StdError::InvalidHex { msg: a }).deep_view() == (StdErrorView::InvalidHex { msg: a@ }),
        (StdError::InvalidUtf8 { msg: a }).deep_view() == (StdErrorView::InvalidUtf8 { msg: a@ }),
        (StdError::ParseErr { target_type: a, msg: b }).deep_view() == (StdErrorView::ParseErr { target_type: a@, msg: b@ }),
        (StdError::SerializeErr { source_type: a, msg: b }).deep_view() == (StdErrorView::SerializeErr { source_type: a@, msg: b@ }),
        (StdError::GenericErr { msg: a }).deep_view() == (StdErrorView::GenericErr { msg: a@ }),
        (StdError::InvalidDataSize { expected: m, actual: n }).deep_view() == (StdErrorView::InvalidDataSize { expected: m, actual: n }),
{
}

/// What is wrong with funds.
pub proof fn law_model_of_payment_errors(a: String, e: PaymentError, due: u128, paid: u128)
    ensures
        (PaymentError::MissingDenom(a)).deep_view() == (PaymentErrorView::MissingDenom(a@)),
        (PaymentError::ExtraDenom(a)).deep_view() == (PaymentErrorView::ExtraDenom(a@)),
        (PaymentError::MultipleDenoms {  }).deep_view() == (PaymentErrorView::MultipleDenoms {  }),
        (PaymentError::NoFunds {  }).deep_view() == (PaymentErrorView::NoFunds {  }),
        (PaymentError::NonPayable {  }).deep_view() == (PaymentErrorView::NonPayable {  }),
        (FeeError::InsufficientFee(due, paid)).deep_view() == (FeeErrorView::InsufficientFee(due, paid)),
        (FeeError::Payment(e)).deep_view() == (FeeErrorView::Payment(e.deep_view())),
{
}

/// Refusals.
pub proof fn law_model_of_refusals(
    a: String,
    b: String,
    std: StdError,
    payment: PaymentError,
    fee: FeeError,
    sent: Coin,
    due: Coin,
    k: u32,
    l: u32,
    g: u32,
    m: u64,
    n: u64,
    x: u128,
    y: u128,
)
    ensures
        (ContractError::Std(std)).deep_view() == (ContractErrorView::Std(std.deep_view())),
        (ContractError::Payment(payment)).deep_view() == (ContractErrorView::Payment(payment.deep_view())),
        (ContractError::Fee(fee)).deep_view() == (ContractErrorView::Fee(fee.deep_view())),
        (ContractError::ParseError(a)).deep_view() == (ContractErrorView::ParseError(a@)),
        (ContractError::Unauthorized(a)).deep_view() == (ContractErrorView::Unauthorized(a@)),
        (ContractError::InvalidReplyID {  }).deep_view() == (ContractErrorView::InvalidReplyID {  }),
        (ContractError::ZeroBalance {  }).deep_view() == (ContractErrorView::ZeroBalance {  }),
        (ContractError::SoldOut {  }).deep_view() == (ContractErrorView::SoldOut {  }),
        (ContractError::InvalidTokenId {  }).deep_view() == (ContractErrorView::InvalidTokenId {  }),
        (ContractError::AlreadyStarted {  }).deep_view() == (ContractErrorView::AlreadyStarted {  }),
        (ContractError::WhitelistAlreadyStarted {  }).deep_view() == (ContractErrorView::WhitelistAlreadyStarted {  }),
        (ContractError::InstantiateSg721Error {  }).deep_view() == (ContractErrorView::InstantiateSg721Error {  }),
        (ContractError::InvalidBaseTokenURI {  }).deep_view() == (ContractErrorView::InvalidBaseTokenURI {  }),
        (ContractError::BeforeMintStartTime {  }).deep_view() == (ContractErrorView::BeforeMintStartTime {  }),
        (ContractError::BeforeGenesisTime {  }).deep_view() == (ContractErrorView::BeforeGenesisTime {  }),
        (ContractError::MaxPerAddressLimitExceeded {  }).deep_view() == (ContractErrorView::MaxPerAddressLimitExceeded {  }),
        (ContractError::TokenIdAlreadySold { token_id: k }).deep_view() == (ContractErrorView::TokenIdAlreadySold { token_id: k }),
        (ContractError::IncorrectPaymentAmount(sent, due)).deep_view() == (ContractErrorView::IncorrectPaymentAmount(sent.deep_view(), due.deep_view())),
        (ContractError::InvalidNumTokens { max: k, min: l }).deep_view() == (ContractErrorView::InvalidNumTokens { max: k, min: l }),
        (ContractError::InvalidDenom { expected: a, got: b }).deep_view() == (ContractErrorView::InvalidDenom { expected: a@, got: b@ }),
        (ContractError::InsufficientMintPrice { expected: x, got: y }).deep_view() == (ContractErrorView::InsufficientMintPrice { expected: x, got: y }),
        (ContractError::InvalidStartTime(m, n)).deep_view() == (ContractErrorView::InvalidStartTime(m, n)),
        (ContractError::NotWhitelisted { addr: a }).deep_view() == (ContractErrorView::NotWhitelisted { addr: a@ }),
        (ContractError::InvalidPerAddressLimit { max: k, min: l, got: g }).deep_view() == (ContractErrorView::InvalidPerAddressLimit { max: k, min: l, got: g }),
{
}

} // verus!
