//! Reading a sale.

use crate::chain::{Answers, Coin, Question, QuestionView, Step, StepView};
use crate::error::{StdError, StdErrorView};
use crate::mint::{mint_count, mint_price, price};
use crate::msg::{
    ConfigResponse, ConfigResponseView, MintCountResponse, MintCountResponseView,
    MintPriceResponse, MintPriceResponseView, QueryMsg, QueryResponse, QueryResponseView,
};
use crate::outcome::{missing_sg721_address, no_sg721_address};
use crate::outside::{seconds_text, timestamp_text};
use crate::state::{State, StateView, TokenPositionMapping};
use vstd::prelude::*;

verus! {

/// How a sale is set up, once its token contract is made.
pub open spec fn config_read(state: StateView) -> StepView<ConfigResponseView, StdErrorView> {
    match state.sg721_address {
        None => StepView::Done(Err(no_sg721_address())),
        Some(sg721_address) => StepView::Done(
            Ok(
                ConfigResponseView {
                    admin: state.config.admin,
                    base_token_uri: state.config.base_token_uri,
                    num_tokens: state.config.num_tokens,
                    per_address_limit: state.config.per_address_limit,
                    sg721_address,
                    sg721_code_id: state.config.sg721_code_id,
                    start_time: state.config.start_time,
                    unit_price: state.config.unit_price,
                    whitelist: state.config.whitelist,
                },
            ),
        ),
    }
}

/// Copies an optional text.
fn clone_text(text: &Option<String>) -> (copy: Option<String>)
    ensures
        copy.deep_view() == text.deep_view(),
{
    match text {
        Some(text) => Some(text.clone()),
        None => None,
    }
}

/// Says how a sale is set up.
pub fn query_config(state: &State) -> (step: Step<ConfigResponse, StdError>)
    ensures
        step.deep_view() == config_read(state.deep_view()),
{
    match &state.sg721_address {
        None => Step::Done(Err(missing_sg721_address())),
        Some(sg721_address) => Step::Done(
            Ok(
                ConfigResponse {
                    admin: state.config.admin.clone(),
                    base_token_uri: state.config.base_token_uri.clone(),
                    num_tokens: state.config.num_tokens,
                    per_address_limit: state.config.per_address_limit,
                    sg721_address: sg721_address.clone(),
                    sg721_code_id: state.config.sg721_code_id,
                    start_time: state.config.start_time,
                    unit_price: state.config.unit_price.clone(),
                    whitelist: clone_text(&state.config.whitelist),
                },
            ),
        ),
    }
}

/// How many tokens an address has minted, if it is one.
pub open spec fn mint_count_read(
    state: StateView,
    address: Seq<char>,
    answers: Answers,
) -> StepView<MintCountResponseView, StdErrorView> {
    match answers.address {
        None => StepView::Ask(QuestionView::ValidateAddress { input: address }),
        Some(Err(e)) => StepView::Done(Err(e.deep_view())),
        Some(Ok(address)) => StepView::Done(
            Ok(
                MintCountResponseView {
                    address: address@,
                    count: state.mint_count(address@),
                },
            ),
        ),
    }
}

/// Says how many tokens an address has minted.
pub fn query_mint_count(state: &State, address: String, answers: &Answers) -> (step: Step<
    MintCountResponse,
    StdError,
>)
    ensures
        step.deep_view() == mint_count_read(state.deep_view(), address@, *answers),
{
    match &answers.address {
        None => Step::Ask(Question::ValidateAddress { input: address }),
        Some(Err(e)) => Step::Done(Err(e.clone())),
        Some(Ok(address)) => Step::Done(
            Ok(
                MintCountResponse {
                    address: address.clone(),
                    count: mint_count(state, address),
                },
            ),
        ),
    }
}

/// Says when a sale starts.
pub fn query_start_time(state: &State) -> (start_time: String)
    ensures
        start_time@ == seconds_text(state.config.start_time),
{
    timestamp_text(state.config.start_time)
}

/// Says how many tokens are left.
pub fn query_mintable_num_tokens(state: &State) -> (count: u32)
    ensures
        count == state.deep_view().mintable_num_tokens,
{
    state.mintable_num_tokens
}

/// The position and the id of each entry of a table.
pub open spec fn pairs(table: Seq<TokenPositionMapping>) -> Seq<(u32, u32)> {
    table.map_values(|m: TokenPositionMapping| (m.position, m.token_id))
}

/// Lists the position and the id of each token that is left.
pub fn query_mintable_tokens(state: &State) -> (list: Vec<(u32, u32)>)
    ensures
        list@ == pairs(state.deep_view().positions),
{
    let table = &state.mintable_token_positions;
    let mut list: Vec<(u32, u32)> = Vec::new();
    for i in 0..table.len()
        invariant
            list@ =~= pairs(table@.take(i as int)),
    {
        list.push((table[i].position, table[i].token_id));
    }
    assert(table@.take(table@.len() as int) =~= table@);
    list
}

/// The public price, the price of the whitelist if there is one, and the price
/// that holds at present.
pub open spec fn mint_price_read(state: StateView, answers: Answers) -> StepView<
    MintPriceResponseView,
    StdErrorView,
> {
    match price(state.config, false, answers) {
        StepView::Ask(question) => StepView::Ask(question),
        StepView::Done(Err(e)) => StepView::Done(Err(e)),
        StepView::Done(Ok(current_price)) => {
            let public_price = state.config.unit_price;
            match state.config.whitelist {
                None => StepView::Done(
                    Ok(
                        MintPriceResponseView {
                            public_price,
                            whitelist_price: None,
                            current_price,
                        },
                    ),
                ),
                Some(whitelist) => match answers.whitelist_config {
                    None => StepView::Ask(QuestionView::WhitelistConfig { whitelist }),
                    Some(Err(e)) => StepView::Done(Err(e.deep_view())),
                    Some(Ok(set_up)) => StepView::Done(
                        Ok(
                            MintPriceResponseView {
                                public_price,
                                whitelist_price: Some(set_up.unit_price.deep_view()),
                                current_price,
                            },
                        ),
                    ),
                },
            }
        },
    }
}

/// Says what a mint costs.
pub fn query_mint_price(state: &State, answers: &Answers) -> (step: Step<
    MintPriceResponse,
    StdError,
>)
    ensures
        step.deep_view() == mint_price_read(state.deep_view(), *answers),
{
    let current_price = match mint_price(&state.config, false, answers) {
        Step::Ask(question) => {
            return Step::Ask(question);
        },
        Step::Done(Err(e)) => {
            return Step::Done(Err(e));
        },
        Step::Done(Ok(current_price)) => current_price,
    };
    let public_price = state.config.unit_price.clone();
    let whitelist_price: Option<Coin> = match &state.config.whitelist {
        None => None,
        Some(whitelist) => match &answers.whitelist_config {
            None => {
                return Step::Ask(Question::WhitelistConfig { whitelist: whitelist.clone() });
            },
            Some(Err(e)) => {
                return Step::Done(Err(e.clone()));
            },
            Some(Ok(set_up)) => Some(set_up.unit_price.clone()),
        },
    };
    Step::Done(Ok(MintPriceResponse { public_price, whitelist_price, current_price }))
}

/// The answer to a query.
pub open spec fn query_outcome(state: StateView, msg: QueryMsg, answers: Answers) -> StepView<
    QueryResponseView,
    StdErrorView,
> {
    match msg {
        QueryMsg::Config {  } => match config_read(state) {
            StepView::Ask(question) => StepView::Ask(question),
            StepView::Done(Err(e)) => StepView::Done(Err(e)),
            StepView::Done(Ok(config)) => StepView::Done(Ok(QueryResponseView::Config(config))),
        },
        QueryMsg::StartTime {  } => StepView::Done(
            Ok(
                QueryResponseView::StartTime {
                    start_time: seconds_text(state.config.start_time),
                },
            ),
        ),
        QueryMsg::MintableNumTokens {  } => StepView::Done(
            Ok(QueryResponseView::MintableNumTokens { count: state.mintable_num_tokens }),
        ),
        QueryMsg::MintPrice {  } => match mint_price_read(state, answers) {
            StepView::Ask(question) => StepView::Ask(question),
            StepView::Done(Err(e)) => StepView::Done(Err(e)),
            StepView::Done(Ok(prices)) => StepView::Done(
                Ok(QueryResponseView::MintPrice(prices)),
            ),
        },
        QueryMsg::MintCount { address } => match mint_count_read(state, address@, answers) {
            StepView::Ask(question) => StepView::Ask(question),
            StepView::Done(Err(e)) => StepView::Done(Err(e)),
            StepView::Done(Ok(count)) => StepView::Done(Ok(QueryResponseView::MintCount(count))),
        },
        QueryMsg::MintableTokens {  } => StepView::Done(
            Ok(QueryResponseView::MintableTokens { mintable_tokens: pairs(state.positions) }),
        ),
    }
}

/// Answers a query.
pub fn query(state: &State, msg: QueryMsg, answers: &Answers) -> (step: Step<
    QueryResponse,
    StdError,
>)
    ensures
        step.deep_view() == query_outcome(state.deep_view(), msg, *answers),
{
    match msg {
        QueryMsg::Config {  } => match query_config(state) {
            Step::Ask(question) => Step::Ask(question),
            Step::Done(Err(e)) => Step::Done(Err(e)),
            Step::Done(Ok(config)) => Step::Done(Ok(QueryResponse::Config(config))),
        },
        QueryMsg::StartTime {  } => Step::Done(
            Ok(QueryResponse::StartTime { start_time: query_start_time(state) }),
        ),
        QueryMsg::MintableNumTokens {  } => Step::Done(
            Ok(QueryResponse::MintableNumTokens { count: query_mintable_num_tokens(state) }),
        ),
        QueryMsg::MintPrice {  } => match query_mint_price(state, answers) {
            Step::Ask(question) => Step::Ask(question),
            Step::Done(Err(e)) => Step::Done(Err(e)),
            Step::Done(Ok(prices)) => Step::Done(Ok(QueryResponse::MintPrice(prices))),
        },
        QueryMsg::MintCount { address } => match query_mint_count(state, address, answers) {
            Step::Ask(question) => Step::Ask(question),
            Step::Done(Err(e)) => Step::Done(Err(e)),
            Step::Done(Ok(count)) => Step::Done(Ok(QueryResponse::MintCount(count))),
        },
        QueryMsg::MintableTokens {  } => Step::Done(
            Ok(
                QueryResponse::MintableTokens { mintable_tokens: query_mintable_tokens(state) },
            ),
        ),
    }
}

} // verus!
