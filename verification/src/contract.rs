//! The messages that a sale takes once it is set up.

use crate::admin::{
    execute_set_whitelist, execute_shuffle, execute_update_per_address_limit,
    execute_update_start_time, execute_withdraw, set_whitelist_outcome, shuffle_outcome,
    update_per_address_limit_outcome, update_start_time_outcome, withdraw_outcome,
};
use crate::chain::{Answers, Env, MessageInfo, Response, Step, StepView};
use crate::error::ContractError;
use crate::history::{law_message_goes_onward, onward, went, Call};
use crate::laws::mints;
use crate::mint::{
    admin_mint_checked, check_admin_mint, execute_mint_for, execute_mint_sender, execute_mint_to,
    is_stuck_on_funds, keep_from_minting, kept_from_minting, mint_by_admin_outcome,
    mint_sender_outcome, stuck_on_funds,
};
use crate::msg::ExecuteMsg;
use crate::outcome::{performed, Outcome};
use crate::state::{places, State, StateView};
use crate::tokens::random_order;
use crate::upheld::table_inv;
use vstd::prelude::*;

verus! {

/// How a message goes.
pub open spec fn execute_outcome(
    state: StateView,
    env: Env,
    info: MessageInfo,
    msg: ExecuteMsg,
    answers: Answers,
) -> Outcome {
    match msg {
        ExecuteMsg::Mint {  } => mint_sender_outcome(state, env, info, answers),
        ExecuteMsg::UpdateStartTime(time) => StepView::Done(
            update_start_time_outcome(state, env, info, time),
        ),
        ExecuteMsg::UpdatePerAddressLimit { per_address_limit } => StepView::Done(
            update_per_address_limit_outcome(state, info, per_address_limit),
        ),
        ExecuteMsg::MintTo { recipient } => mint_by_admin_outcome(
            state,
            env,
            info,
            "mint_to"@,
            recipient@,
            None,
            answers,
        ),
        ExecuteMsg::MintFor { token_id, recipient } => mint_by_admin_outcome(
            state,
            env,
            info,
            "mint_for"@,
            recipient@,
            Some(token_id),
            answers,
        ),
        ExecuteMsg::SetWhitelist { whitelist } => set_whitelist_outcome(
            state,
            env,
            info,
            whitelist@,
            answers,
        ),
        ExecuteMsg::Shuffle {  } => StepView::Done(
            shuffle_outcome(state, info, random_order(env.height, places(state.positions))),
        ),
        ExecuteMsg::Withdraw {  } => withdraw_outcome(state, env, info, answers),
    }
}

/// Whether a message gets as far as reading its funds, and then cannot: two or more
/// coins that are all of the price's denomination were sent.
pub open spec fn stuck(
    state: StateView,
    env: Env,
    info: MessageInfo,
    msg: ExecuteMsg,
    answers: Answers,
) -> bool {
    match msg {
        ExecuteMsg::Mint {  } => kept_from_minting(state, env, info, answers) is None
            && stuck_on_funds(state, info, false, answers),
        ExecuteMsg::MintTo { recipient } => admin_mint_checked(
            state,
            info,
            recipient@,
            answers,
        ) matches StepView::Done(Ok(_)) && stuck_on_funds(state, info, true, answers),
        ExecuteMsg::MintFor { recipient, .. } => admin_mint_checked(
            state,
            info,
            recipient@,
            answers,
        ) matches StepView::Done(Ok(_)) && stuck_on_funds(state, info, true, answers),
        _ => false,
    }
}

/// Finds out whether a message gets as far as reading its funds, and then cannot.
pub fn is_stuck(
    state: &State,
    env: &Env,
    info: &MessageInfo,
    msg: &ExecuteMsg,
    answers: &Answers,
) -> (r: bool)
    ensures
        r == stuck(state.deep_view(), *env, *info, *msg, *answers),
{
    match msg {
        ExecuteMsg::Mint {  } => keep_from_minting(state, env, info, answers).is_none()
            && is_stuck_on_funds(state, info, false, answers),
        ExecuteMsg::MintTo { recipient } => match check_admin_mint(
            state,
            info,
            recipient,
            answers,
        ) {
            Step::Done(Ok(_)) => is_stuck_on_funds(state, info, true, answers),
            _ => false,
        },
        ExecuteMsg::MintFor { recipient, .. } => match check_admin_mint(
            state,
            info,
            recipient,
            answers,
        ) {
            Step::Done(Ok(_)) => is_stuck_on_funds(state, info, true, answers),
            _ => false,
        },
        _ => false,
    }
}

/// Takes a message. The sale goes onward: tokens only leave, counts only rise, and
/// the terms that no message changes stay. The table stays in order whatever the
/// counts are, and a sale that is in order as a whole stays so.
pub fn execute(
    state: &mut State,
    env: &Env,
    info: &MessageInfo,
    msg: ExecuteMsg,
    answers: &Answers,
) -> (step: Step<Response, ContractError>)
    requires
        old(state).deep_view().wf(),
        !stuck(old(state).deep_view(), *env, *info, msg, *answers),
    ensures
        performed(
            execute_outcome(old(state).deep_view(), *env, *info, msg, *answers),
            old(state).deep_view(),
            final(state).deep_view(),
            step,
        ),
        went(
            old(state).deep_view(),
            (Call { env: *env, info: *info, msg, answers: *answers }),
            final(state).deep_view(),
        ),
        final(state).deep_view().wf(),
        onward(old(state).deep_view(), final(state).deep_view()),
        final(state).mintable_num_tokens == old(state).mintable_num_tokens - (if mints(msg)
            && step is Done && step->Done_0 is Ok {
            1int
        } else {
            0
        }),
        table_inv(old(state).mintable_token_positions@, old(state).config.num_tokens) ==> table_inv(
            final(state).mintable_token_positions@,
            final(state).config.num_tokens,
        ),
        old(state).deep_view().inv() ==> final(state).deep_view().inv(),
{
    let ghost before = state.deep_view();
    let ghost call = Call { env: *env, info: *info, msg, answers: *answers };
    let step = match msg {
        ExecuteMsg::Mint {  } => execute_mint_sender(state, env, info, answers),
        ExecuteMsg::UpdateStartTime(time) => Step::Done(
            execute_update_start_time(state, env, info, time),
        ),
        ExecuteMsg::UpdatePerAddressLimit { per_address_limit } => Step::Done(
            execute_update_per_address_limit(state, env, info, per_address_limit),
        ),
        ExecuteMsg::MintTo { recipient } => execute_mint_to(state, env, info, recipient, answers),
        ExecuteMsg::MintFor { token_id, recipient } => execute_mint_for(
            state,
            env,
            info,
            token_id,
            recipient,
            answers,
        ),
        ExecuteMsg::SetWhitelist { whitelist } => execute_set_whitelist(
            state,
            env,
            info,
            whitelist.as_str(),
            answers,
        ),
        ExecuteMsg::Shuffle {  } => Step::Done(execute_shuffle(state, env, info)),
        ExecuteMsg::Withdraw {  } => execute_withdraw(state, env, info, answers),
    };
    proof {
        law_message_goes_onward(before, call, state.deep_view());
    }
    step
}

} // verus!
