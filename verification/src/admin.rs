//! What the admin does to a sale, and the shuffle that anyone can pay for.

use crate::chain::{
    Answers, Coin, CoinView, CosmosMsg, CosmosMsgView, Env, MessageInfo, Question, QuestionView, Response,
    ResponseView, Step, StepView,
};
use crate::error::{ContractError, ContractErrorView};
use crate::fees::{checked_fair_burn, fee_taken, NATIVE_DENOM};
use crate::outcome::{carried_out, not_admin, performed, unauthorized, Outcome};
use crate::outside::{permutes, seconds_text, timestamp_text};
use crate::setup::{
    invalid_limit, limit_out_of_bounds, GENESIS_MINT_START_TIME, MAX_PER_ADDRESS_LIMIT,
};
use crate::state::{places, token_ids, ConfigView, State, StateView};
use crate::text::{decimal, decimal_string};
use crate::tokens::{
    index_order, list_positions, random_order, random_token_list, shuffle_positions, shuffled,
};
use crate::upheld::lemma_reordered_inv;
use vstd::prelude::*;

verus! {

/// What a shuffle costs.
pub const SHUFFLE_FEE: u128 = 500_000_000;

/// How a shuffle goes, given the order that chance gives to the positions. The fee
/// has to be paid exactly.
pub open spec fn shuffle_outcome(state: StateView, info: MessageInfo, order: Seq<u32>) -> Result<
    (StateView, ResponseView),
    ContractErrorView,
> {
    match fee_taken(info.funds.deep_view(), SHUFFLE_FEE) {
        Err(e) => Err(ContractErrorView::Fee(e)),
        Ok(fee_msgs) => if info.funds.deep_view()[0].amount != SHUFFLE_FEE {
            Err(
                ContractErrorView::IncorrectPaymentAmount(
                    info.funds.deep_view()[0],
                    CoinView { denom: NATIVE_DENOM@, amount: SHUFFLE_FEE },
                ),
            )
        } else if state.mintable_num_tokens == 0 {
            Err(ContractErrorView::SoldOut {  })
        } else {
            Ok(
                (
                    StateView {
                        positions: shuffled(state.positions, order, order.len()),
                        ..state
                    },
                    ResponseView::empty().attribute("action"@, "shuffle"@).attribute(
                        "sender"@,
                        info.sender@,
                    ).plain_messages(fee_msgs),
                ),
            )
        },
    }
}

/// Shuffles the tokens that are left, for a fee. Anyone can.
pub fn execute_shuffle(state: &mut State, env: &Env, info: &MessageInfo) -> (r: Result<
    Response,
    ContractError,
>)
    requires
        old(state).deep_view().wf(),
    ensures
        carried_out(
            shuffle_outcome(
                old(state).deep_view(),
                *info,
                random_order(env.height, places(old(state).mintable_token_positions@)),
            ),
            old(state).deep_view(),
            final(state).deep_view(),
            r,
        ),
        final(state).deep_view().wf(),
        places(final(state).mintable_token_positions@) == places(
            old(state).mintable_token_positions@,
        ),
        token_ids(final(state).mintable_token_positions@).to_multiset() == token_ids(
            old(state).mintable_token_positions@,
        ).to_multiset(),
        r is Ok ==> permutes(
            index_order(env.height, old(state).mintable_token_positions@.len()),
            old(state).mintable_token_positions@.len(),
        ),
        old(state).deep_view().inv() ==> final(state).deep_view().inv(),
{
    let fee_msgs = match checked_fair_burn(info, SHUFFLE_FEE) {
        Err(e) => {
            return Err(ContractError::Fee(e));
        },
        Ok(fee_msgs) => fee_msgs,
    };
    let paid = &info.funds[0];
    if paid.amount != SHUFFLE_FEE {
        return Err(
            ContractError::IncorrectPaymentAmount(
                paid.clone(),
                Coin { denom: NATIVE_DENOM.to_owned(), amount: SHUFFLE_FEE },
            ),
        );
    }
    if state.mintable_num_tokens == 0 {
        return Err(ContractError::SoldOut {  });
    }
    let positions = list_positions(&state.mintable_token_positions);
    let order = match random_token_list(env, positions) {
        Err(e) => {
            return Err(e);
        },
        Ok(order) => order,
    };
    shuffle_positions(&mut state.mintable_token_positions, &order);
    assert(places(state.mintable_token_positions@).len() == places(
        old(state).mintable_token_positions@,
    ).len());
    proof {
        if old(state).deep_view().inv() {
            lemma_reordered_inv(
                old(state).mintable_token_positions@,
                state.mintable_token_positions@,
                state.config.num_tokens,
            );
        }
    }
    Ok(
        Response::new().add_attribute("action", "shuffle".to_owned()).add_attribute(
            "sender",
            info.sender.clone(),
        ).add_messages(fee_msgs),
    )
}

/// How a withdrawal goes: the admin receives what the contract holds.
pub open spec fn withdraw_outcome(
    state: StateView,
    env: Env,
    info: MessageInfo,
    answers: Answers,
) -> Outcome {
    if state.config.admin != info.sender@ {
        StepView::Done(Err(not_admin()))
    } else {
        match answers.balance {
            None => StepView::Ask(
                QuestionView::Balance { address: env.contract@, denom: NATIVE_DENOM@ },
            ),
            Some(Err(e)) => StepView::Done(Err(ContractErrorView::Std(e.deep_view()))),
            Some(Ok(balance)) => if balance.amount == 0 {
                StepView::Done(Err(ContractErrorView::ZeroBalance {  }))
            } else {
                StepView::Done(
                    Ok(
                        (
                            state,
                            ResponseView::empty().attribute(
                                "action"@,
                                "withdraw"@,
                            ).plain_messages(
                                seq![
                                    CosmosMsgView::Send {
                                        to_address: info.sender@,
                                        amount: seq![balance.deep_view()],
                                    },
                                ],
                            ),
                        ),
                    ),
                )
            },
        }
    }
}

/// Sends what the contract holds to the admin.
pub fn execute_withdraw(state: &mut State, env: &Env, info: &MessageInfo, answers: &Answers) -> (step:
    Step<Response, ContractError>)
    ensures
        performed(
            withdraw_outcome(old(state).deep_view(), *env, *info, *answers),
            old(state).deep_view(),
            final(state).deep_view(),
            step,
        ),
{
    if state.config.admin != info.sender {
        return Step::Done(Err(unauthorized()));
    }
    let balance = match &answers.balance {
        None => {
            return Step::Ask(
                Question::Balance {
                    address: env.contract.clone(),
                    denom: NATIVE_DENOM.to_owned(),
                },
            );
        },
        Some(Err(e)) => {
            return Step::Done(Err(ContractError::Std(e.clone())));
        },
        Some(Ok(balance)) => balance,
    };
    if balance.amount == 0 {
        return Step::Done(Err(ContractError::ZeroBalance {  }));
    }
    let mut amount: Vec<Coin> = Vec::new();
    amount.push(balance.clone());
    assert(amount.deep_view() =~= seq![balance.deep_view()]);
    let mut msgs: Vec<CosmosMsg> = Vec::new();
    msgs.push(CosmosMsg::Send { to_address: info.sender.clone(), amount });
    assert(msgs.deep_view() =~= seq![
        CosmosMsgView::Send { to_address: info.sender@, amount: seq![balance.deep_view()] },
    ]);
    Step::Done(
        Ok(Response::new().add_attribute("action", "withdraw".to_owned()).add_messages(msgs)),
    )
}

/// How the setting of a whitelist goes: only before the sale has started, and not
/// while the whitelist so far is active.
pub open spec fn set_whitelist_outcome(
    state: StateView,
    env: Env,
    info: MessageInfo,
    whitelist: Seq<char>,
    answers: Answers,
) -> Outcome {
    if state.config.admin != info.sender@ {
        StepView::Done(Err(not_admin()))
    } else if env.time >= state.config.start_time {
        StepView::Done(Err(ContractErrorView::AlreadyStarted {  }))
    } else if state.config.whitelist is Some && answers.whitelist_config is None {
        StepView::Ask(QuestionView::WhitelistConfig { whitelist: state.config.whitelist->0 })
    } else if state.config.whitelist is Some && answers.whitelist_config->0 is Err {
        StepView::Done(
            Err(ContractErrorView::Std(answers.whitelist_config->0->Err_0.deep_view())),
        )
    } else if state.config.whitelist is Some && answers.whitelist_config->0->Ok_0.is_active {
        StepView::Done(Err(ContractErrorView::WhitelistAlreadyStarted {  }))
    } else {
        match answers.address {
            None => StepView::Ask(QuestionView::ValidateAddress { input: whitelist }),
            Some(Err(e)) => StepView::Done(Err(ContractErrorView::Std(e.deep_view()))),
            Some(Ok(address)) => StepView::Done(
                Ok(
                    (
                        StateView {
                            config: ConfigView { whitelist: Some(address@), ..state.config },
                            ..state
                        },
                        ResponseView::empty().attribute("action"@, "set_whitelist"@).attribute(
                            "whitelist"@,
                            whitelist,
                        ),
                    ),
                ),
            ),
        }
    }
}

/// Sets the whitelist.
pub fn execute_set_whitelist(
    state: &mut State,
    env: &Env,
    info: &MessageInfo,
    whitelist: &str,
    answers: &Answers,
) -> (step: Step<Response, ContractError>)
    ensures
        performed(
            set_whitelist_outcome(old(state).deep_view(), *env, *info, whitelist@, *answers),
            old(state).deep_view(),
            final(state).deep_view(),
            step,
        ),
{
    if state.config.admin != info.sender {
        return Step::Done(Err(unauthorized()));
    }
    if env.time >= state.config.start_time {
        return Step::Done(Err(ContractError::AlreadyStarted {  }));
    }
    if let Some(present) = &state.config.whitelist {
        match &answers.whitelist_config {
            None => {
                return Step::Ask(Question::WhitelistConfig { whitelist: present.clone() });
            },
            Some(Err(e)) => {
                return Step::Done(Err(ContractError::Std(e.clone())));
            },
            Some(Ok(set_up)) => {
                if set_up.is_active {
                    return Step::Done(Err(ContractError::WhitelistAlreadyStarted {  }));
                }
            },
        }
    }
    match &answers.address {
        None => Step::Ask(Question::ValidateAddress { input: whitelist.to_owned() }),
        Some(Err(e)) => Step::Done(Err(ContractError::Std(e.clone()))),
        Some(Ok(address)) => {
            state.config.whitelist = Some(address.clone());
            Step::Done(
                Ok(
                    Response::new().add_attribute(
                        "action",
                        "set_whitelist".to_owned(),
                    ).add_attribute("whitelist", whitelist.to_owned()),
                ),
            )
        },
    }
}

/// How a change of the start time goes: only before the sale has started, and to a
/// time that is neither past nor before the genesis.
pub open spec fn update_start_time_outcome(
    state: StateView,
    env: Env,
    info: MessageInfo,
    start_time: u64,
) -> Result<(StateView, ResponseView), ContractErrorView> {
    if info.sender@ != state.config.admin {
        Err(not_admin())
    } else if env.time >= state.config.start_time {
        Err(ContractErrorView::AlreadyStarted {  })
    } else if env.time > start_time {
        Err(ContractErrorView::InvalidStartTime(start_time, env.time))
    } else if start_time < GENESIS_MINT_START_TIME {
        Err(ContractErrorView::BeforeGenesisTime {  })
    } else {
        Ok(
            (
                StateView { config: ConfigView { start_time, ..state.config }, ..state },
                ResponseView::empty().attribute("action"@, "update_start_time"@).attribute(
                    "sender"@,
                    info.sender@,
                ).attribute("start_time"@, seconds_text(start_time)),
            ),
        )
    }
}

/// Changes the start time.
pub fn execute_update_start_time(
    state: &mut State,
    env: &Env,
    info: &MessageInfo,
    start_time: u64,
) -> (r: Result<Response, ContractError>)
    ensures
        carried_out(
            update_start_time_outcome(old(state).deep_view(), *env, *info, start_time),
            old(state).deep_view(),
            final(state).deep_view(),
            r,
        ),
{
    if info.sender != state.config.admin {
        return Err(unauthorized());
    }
    if env.time >= state.config.start_time {
        return Err(ContractError::AlreadyStarted {  });
    }
    if env.time > start_time {
        return Err(ContractError::InvalidStartTime(start_time, env.time));
    }
    if start_time < GENESIS_MINT_START_TIME {
        return Err(ContractError::BeforeGenesisTime {  });
    }
    state.config.start_time = start_time;
    Ok(
        Response::new().add_attribute("action", "update_start_time".to_owned()).add_attribute(
            "sender",
            info.sender.clone(),
        ).add_attribute("start_time", timestamp_text(start_time)),
    )
}

/// How a change of the limit per address goes.
pub open spec fn update_per_address_limit_outcome(
    state: StateView,
    info: MessageInfo,
    per_address_limit: u32,
) -> Result<(StateView, ResponseView), ContractErrorView> {
    if info.sender@ != state.config.admin {
        Err(not_admin())
    } else if limit_out_of_bounds(per_address_limit) {
        Err(invalid_limit(per_address_limit))
    } else {
        Ok(
            (
                StateView { config: ConfigView { per_address_limit, ..state.config }, ..state },
                ResponseView::empty().attribute(
                    "action"@,
                    "update_per_address_limit"@,
                ).attribute("sender"@, info.sender@).attribute(
                    "limit"@,
                    decimal(per_address_limit as nat),
                ),
            ),
        )
    }
}

/// Changes the limit per address.
pub fn execute_update_per_address_limit(
    state: &mut State,
    _env: &Env,
    info: &MessageInfo,
    per_address_limit: u32,
) -> (r: Result<Response, ContractError>)
    ensures
        carried_out(
            update_per_address_limit_outcome(old(state).deep_view(), *info, per_address_limit),
            old(state).deep_view(),
            final(state).deep_view(),
            r,
        ),
{
    if info.sender != state.config.admin {
        return Err(unauthorized());
    }
    if per_address_limit == 0 || per_address_limit > MAX_PER_ADDRESS_LIMIT {
        return Err(
            ContractError::InvalidPerAddressLimit {
                max: MAX_PER_ADDRESS_LIMIT,
                min: 1,
                got: per_address_limit,
            },
        );
    }
    state.config.per_address_limit = per_address_limit;
    Ok(
        Response::new().add_attribute(
            "action",
            "update_per_address_limit".to_owned(),
        ).add_attribute("sender", info.sender.clone()).add_attribute(
            "limit",
            decimal_string(per_address_limit as u128),
        ),
    )
}

} // verus!
