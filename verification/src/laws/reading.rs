//! What a query answers, said of what goes in and what comes out.

use crate::chain::{Answers, CoinView, Env, MessageInfo, QuestionView, StepView};
use crate::contract::execute_outcome;
use crate::error::{ContractErrorView, StdErrorView};
use crate::laws::minting::{
    count_of, price_due, refused, sender_may_mint, token_can_be_made,
};
use crate::msg::{
    ConfigResponseView, ExecuteMsg, MintCountResponseView, MintPriceResponseView, QueryMsg,
    QueryResponseView,
};
use crate::outside::seconds_text;
use crate::query::query_outcome;
use crate::state::StateView;
use vstd::prelude::*;

verus! {

/// How a query goes.
pub type Reading = StepView<QueryResponseView, StdErrorView>;

/// The prices that are read: that of the sale, that of the whitelist exactly if one is
/// set, and the one that a mint asks for at present, which is that of the whitelist
/// exactly while it is active.
pub proof fn law_prices_are_read(state: StateView, answers: Answers)
    ensures
        ({
            let out = query_outcome(state, QueryMsg::MintPrice {  }, answers);
            let listed = state.config.whitelist is Some;
            let whitelist = state.config.whitelist->0;
            let priced = answers.whitelist_price is Some && answers.whitelist_price->0 is Ok;
            let known = answers.whitelist_config is Some && answers.whitelist_config->0 is Ok;
            let own = answers.whitelist_config->0->Ok_0.unit_price;
            &&& !listed ==> out == Reading::Done(
                Ok(
                    QueryResponseView::MintPrice(
                        MintPriceResponseView {
                            public_price: state.config.unit_price,
                            whitelist_price: None,
                            current_price: state.config.unit_price,
                        },
                    ),
                ),
            )
            &&& listed && answers.whitelist_price is None ==> out == Reading::Ask(
                QuestionView::WhitelistPrice { whitelist },
            )
            &&& listed && answers.whitelist_price is Some && answers.whitelist_price->0 is Err
                ==> out == Reading::Done(Err(answers.whitelist_price->0->Err_0.deep_view()))
            &&& listed && priced && answers.whitelist_config is None ==> out == Reading::Ask(
                QuestionView::WhitelistConfig { whitelist },
            )
            &&& listed && priced && answers.whitelist_config is Some && answers.whitelist_config->0
                is Err ==> out == Reading::Done(
                Err(answers.whitelist_config->0->Err_0.deep_view()),
            )
            &&& listed && priced && known ==> out == Reading::Done(
                Ok(
                    QueryResponseView::MintPrice(
                        MintPriceResponseView {
                            public_price: state.config.unit_price,
                            whitelist_price: Some(
                                CoinView { denom: own.denom@, amount: own.amount },
                            ),
                            current_price: price_due(state, answers),
                        },
                    ),
                ),
            )
        }),
{
}

/// Who may mint and pays the price that was read is not refused for the payment, and
/// who pays another amount is told the price that was read.
pub proof fn law_the_price_read_is_the_price_due(
    state: StateView,
    env: Env,
    info: MessageInfo,
    answers: Answers,
    read: MintPriceResponseView,
)
    requires
        query_outcome(state, QueryMsg::MintPrice {  }, answers) == Reading::Done(
            Ok(QueryResponseView::MintPrice(read)),
        ),
        sender_may_mint(state, env, info, answers),
        token_can_be_made(state),
        state.config.unit_price.denom == "ustars"@,
        info.funds.deep_view().len() == 1,
        info.funds.deep_view()[0].denom == "ustars"@,
        info.funds.deep_view()[0].amount > 0,
    ensures
        ({
            let out = execute_outcome(state, env, info, ExecuteMsg::Mint {  }, answers);
            let paid = info.funds.deep_view()[0];
            &&& paid.amount == read.current_price.amount ==> (out matches StepView::Done(Ok(_)))
            &&& paid.amount != read.current_price.amount ==> out == refused(
                ContractErrorView::IncorrectPaymentAmount(paid, read.current_price),
            )
        }),
{
}

/// The terms that are read are those of the sale, with the address of its token
/// contract; while there is none, they cannot be read.
pub proof fn law_terms_are_read(state: StateView, answers: Answers)
    ensures
        state.sg721_address is None ==> query_outcome(state, QueryMsg::Config {  }, answers)
            == Reading::Done(
            Err(StdErrorView::NotFound { kind: "cosmwasm_std::addresses::Addr"@ }),
        ),
        state.sg721_address is Some ==> query_outcome(state, QueryMsg::Config {  }, answers)
            == Reading::Done(
            Ok(
                QueryResponseView::Config(
                    ConfigResponseView {
                        admin: state.config.admin,
                        base_token_uri: state.config.base_token_uri,
                        num_tokens: state.config.num_tokens,
                        per_address_limit: state.config.per_address_limit,
                        sg721_address: state.sg721_address->0,
                        sg721_code_id: state.config.sg721_code_id,
                        start_time: state.config.start_time,
                        unit_price: state.config.unit_price,
                        whitelist: state.config.whitelist,
                    },
                ),
            ),
        ),
{
}

/// The count that is read is that of the address the text stands for, and nothing for
/// an address that has minted nothing.
pub proof fn law_counts_are_read(state: StateView, address: String, answers: Answers)
    ensures
        ({
            let out = query_outcome(state, QueryMsg::MintCount { address }, answers);
            let found = answers.address->0->Ok_0@;
            &&& answers.address is None ==> out == Reading::Ask(
                QuestionView::ValidateAddress { input: address@ },
            )
            &&& answers.address is Some && answers.address->0 is Err ==> out == Reading::Done(
                Err(answers.address->0->Err_0.deep_view()),
            )
            &&& answers.address is Some && answers.address->0 is Ok ==> out == Reading::Done(
                Ok(
                    QueryResponseView::MintCount(
                        MintCountResponseView {
                            address: found,
                            count: count_of(state, found) as u32,
                        },
                    ),
                ),
            )
        }),
{
}

/// The start time, the number of tokens that are left, and each of them with its
/// position, in order, are read at any time.
pub proof fn law_what_is_left_is_read(state: StateView, answers: Answers)
    ensures
        query_outcome(state, QueryMsg::StartTime {  }, answers) == Reading::Done(
            Ok(
                QueryResponseView::StartTime {
                    start_time: seconds_text(state.config.start_time),
                },
            ),
        ),
        query_outcome(state, QueryMsg::MintableNumTokens {  }, answers) == Reading::Done(
            Ok(QueryResponseView::MintableNumTokens { count: state.mintable_num_tokens }),
        ),
        query_outcome(state, QueryMsg::MintableTokens {  }, answers) matches StepView::Done(
            Ok(QueryResponseView::MintableTokens { mintable_tokens }),
        ) && mintable_tokens.len() == state.positions.len() && forall|i: int|
            0 <= i < mintable_tokens.len() ==> #[trigger] mintable_tokens[i] == (
                state.positions[i].position,
                state.positions[i].token_id,
            ),
{
}

} // verus!
