//! Setting up a sale.

use crate::chain::{
    result_view, Answers, CosmosMsg, CosmosMsgView, Env, MessageInfo, Question, QuestionView,
    ReplyOn, Response, ResponseView, Step, StepView, SubMsg, SubMsgView,
};
use crate::error::{ContractError, ContractErrorView};
use crate::fees::{clone_coins, NATIVE_DENOM};
use crate::msg::{InstantiateMsg, Reply, Sg721InstantiateMsg, Sg721InstantiateMsgView};
use crate::outcome::{carried_out, Outcome};
use crate::outside::{parse_reply_address, parse_url_scheme, reply_address, url_scheme};
use crate::state::{token_ids, Config, ConfigView, MintCounts, State, StateView};
use crate::tokens::{
    assign_token_ids, first_table, lemma_rearranged_numbers, number, numbered, random_order,
    random_token_list,
};
use vstd::prelude::*;

verus! {

pub const CONTRACT_NAME: &'static str = "crates.io:sg-minter";

pub const CONTRACT_VERSION: &'static str = "0.1.0";

/// The number under which the chain reports on the making of the token contract.
pub const INSTANTIATE_SG721_REPLY_ID: u64 = 1;

pub const MAX_TOKEN_LIMIT: u32 = 10000;

pub const MAX_PER_ADDRESS_LIMIT: u32 = 50;

pub const MIN_MINT_PRICE: u128 = 50_000_000;

/// The earliest start of a sale, in nanoseconds since the epoch.
pub const GENESIS_MINT_START_TIME: u64 = 1_647_032_400_000_000_000;

/// The refusal of a limit per address.
pub open spec fn invalid_limit(got: u32) -> ContractErrorView {
    ContractErrorView::InvalidPerAddressLimit { max: MAX_PER_ADDRESS_LIMIT, min: 1, got }
}

/// Whether a limit per address is out of bounds.
pub open spec fn limit_out_of_bounds(limit: u32) -> bool {
    limit == 0 || limit > MAX_PER_ADDRESS_LIMIT
}

/// The first thing that is wrong with a sale that is to be set up, given the
/// scheme of its base token URI.
pub open spec fn setup_error(
    env: Env,
    msg: InstantiateMsg,
    scheme: Result<Seq<char>, Seq<char>>,
) -> Option<ContractErrorView> {
    if msg.num_tokens == 0 || msg.num_tokens > MAX_TOKEN_LIMIT {
        Some(ContractErrorView::InvalidNumTokens { max: MAX_TOKEN_LIMIT, min: 1 })
    } else if limit_out_of_bounds(msg.per_address_limit) {
        Some(invalid_limit(msg.per_address_limit))
    } else if scheme is Err {
        Some(ContractErrorView::ParseError(scheme->Err_0))
    } else if scheme->Ok_0 != "ipfs"@ {
        Some(ContractErrorView::InvalidBaseTokenURI {  })
    } else if msg.unit_price.denom@ != NATIVE_DENOM@ {
        Some(
            ContractErrorView::InvalidDenom {
                expected: NATIVE_DENOM@,
                got: msg.unit_price.denom@,
            },
        )
    } else if msg.unit_price.amount < MIN_MINT_PRICE {
        Some(
            ContractErrorView::InsufficientMintPrice {
                expected: MIN_MINT_PRICE,
                got: msg.unit_price.amount,
            },
        )
    } else if msg.start_time < GENESIS_MINT_START_TIME {
        Some(ContractErrorView::BeforeGenesisTime {  })
    } else if env.time > msg.start_time {
        Some(ContractErrorView::InvalidStartTime(msg.start_time, env.time))
    } else {
        None
    }
}

/// Checks a sale that is to be set up, given the scheme of its base token URI.
pub fn check_setup(env: &Env, msg: &InstantiateMsg, scheme: Result<String, String>) -> (r: Result<
    (),
    ContractError,
>)
    ensures
        match setup_error(*env, *msg, result_view(scheme)) {
            Some(e) => result_view(r) == Err::<(), ContractErrorView>(e),
            None => r is Ok,
        },
{
    if msg.num_tokens == 0 || msg.num_tokens > MAX_TOKEN_LIMIT {
        return Err(ContractError::InvalidNumTokens { max: MAX_TOKEN_LIMIT, min: 1 });
    }
    if msg.per_address_limit == 0 || msg.per_address_limit > MAX_PER_ADDRESS_LIMIT {
        return Err(
            ContractError::InvalidPerAddressLimit {
                max: MAX_PER_ADDRESS_LIMIT,
                min: 1,
                got: msg.per_address_limit,
            },
        );
    }
    match scheme {
        Err(text) => {
            return Err(ContractError::ParseError(text));
        },
        Ok(scheme) => {
            if scheme != "ipfs".to_owned() {
                return Err(ContractError::InvalidBaseTokenURI {  });
            }
        },
    }
    if msg.unit_price.denom != NATIVE_DENOM.to_owned() {
        return Err(
            ContractError::InvalidDenom {
                expected: NATIVE_DENOM.to_owned(),
                got: msg.unit_price.denom.clone(),
            },
        );
    }
    if MIN_MINT_PRICE > msg.unit_price.amount {
        return Err(
            ContractError::InsufficientMintPrice {
                expected: MIN_MINT_PRICE,
                got: msg.unit_price.amount,
            },
        );
    }
    if msg.start_time < GENESIS_MINT_START_TIME {
        return Err(ContractError::BeforeGenesisTime {  });
    }
    if env.time > msg.start_time {
        return Err(ContractError::InvalidStartTime(msg.start_time, env.time));
    }
    Ok(())
}

/// The state of a sale that has just been set up: every token is left, in the
/// given order.
pub open spec fn first_state(
    info: MessageInfo,
    msg: InstantiateMsg,
    whitelist: Option<Seq<char>>,
    order: Seq<u32>,
) -> StateView {
    StateView {
        config: ConfigView {
            admin: info.sender@,
            base_token_uri: msg.base_token_uri@,
            num_tokens: msg.num_tokens,
            sg721_code_id: msg.sg721_code_id,
            start_time: msg.start_time,
            unit_price: msg.unit_price.deep_view(),
            per_address_limit: msg.per_address_limit,
            whitelist,
        },
        sg721_address: None,
        mintable_num_tokens: msg.num_tokens,
        positions: first_table(order),
        minters: Map::empty(),
    }
}

/// The response to the setting up of a sale: it makes the token contract.
pub open spec fn setup_response(env: Env, info: MessageInfo, msg: InstantiateMsg) -> ResponseView {
    ResponseView::empty().attribute("action"@, "instantiate"@).attribute(
        "contract_name"@,
        CONTRACT_NAME@,
    ).attribute("contract_version"@, CONTRACT_VERSION@).attribute(
        "sender"@,
        info.sender@,
    ).submessage(
        SubMsgView {
            id: INSTANTIATE_SG721_REPLY_ID,
            msg: CosmosMsgView::Instantiate {
                admin: Some(info.sender@),
                code_id: msg.sg721_code_id,
                msg: Sg721InstantiateMsgView {
                    name: msg.sg721_instantiate_msg.name@,
                    symbol: msg.sg721_instantiate_msg.symbol@,
                    minter: env.contract@,
                    collection_info: msg.sg721_instantiate_msg.collection_info,
                },
                funds: info.funds.deep_view(),
                label: "Fixed price minter"@,
            },
            gas_limit: None,
            reply_on: ReplyOn::Success,
        },
    )
}

/// Sets up a sale that has been checked, with its tokens in the given order.
pub fn open_sale(
    env: &Env,
    info: &MessageInfo,
    msg: InstantiateMsg,
    whitelist: Option<String>,
    order: &Vec<u32>,
) -> (r: (State, Response))
    requires
        msg.num_tokens < u32::MAX,
        order@.to_multiset() == numbered(msg.num_tokens as nat).to_multiset(),
    ensures
        r.0.deep_view() == first_state(*info, msg, whitelist.deep_view(), order@),
        r.0.deep_view().wf(),
        r.1.deep_view() == setup_response(*env, *info, msg),
{
    proof {
        lemma_rearranged_numbers(order@, msg.num_tokens as nat);
    }
    let table = assign_token_ids(order);
    let response = Response::new().add_attribute(
        "action",
        "instantiate".to_owned(),
    ).add_attribute("contract_name", CONTRACT_NAME.to_owned()).add_attribute(
        "contract_version",
        CONTRACT_VERSION.to_owned(),
    ).add_attribute("sender", info.sender.clone()).add_submessage(
        SubMsg {
            id: INSTANTIATE_SG721_REPLY_ID,
            msg: CosmosMsg::Instantiate {
                admin: Some(info.sender.clone()),
                code_id: msg.sg721_code_id,
                msg: Sg721InstantiateMsg {
                    name: msg.sg721_instantiate_msg.name,
                    symbol: msg.sg721_instantiate_msg.symbol,
                    minter: env.contract.clone(),
                    collection_info: msg.sg721_instantiate_msg.collection_info,
                },
                funds: clone_coins(&info.funds),
                label: "Fixed price minter".to_owned(),
            },
            gas_limit: None,
            reply_on: ReplyOn::Success,
        },
    );
    let state = State {
        config: Config {
            admin: info.sender.clone(),
            base_token_uri: msg.base_token_uri,
            num_tokens: msg.num_tokens,
            sg721_code_id: msg.sg721_code_id,
            start_time: msg.start_time,
            unit_price: msg.unit_price,
            per_address_limit: msg.per_address_limit,
            whitelist,
        },
        sg721_address: None,
        mintable_num_tokens: msg.num_tokens,
        mintable_token_positions: table,
        minter_addrs: MintCounts::new(),
    };
    (state, response)
}

/// A sale that is set up within its bounds starts out with each token once, and
/// with nothing minted.
pub proof fn lemma_first_inv(
    info: MessageInfo,
    msg: InstantiateMsg,
    whitelist: Option<Seq<char>>,
    order: Seq<u32>,
)
    requires
        1 <= msg.num_tokens <= MAX_TOKEN_LIMIT,
        !limit_out_of_bounds(msg.per_address_limit),
        msg.unit_price.denom@ == NATIVE_DENOM@,
        msg.unit_price.amount >= MIN_MINT_PRICE,
        msg.start_time >= GENESIS_MINT_START_TIME,
        order.to_multiset() == numbered(msg.num_tokens as nat).to_multiset(),
    ensures
        first_state(info, msg, whitelist, order).fresh(),
        first_state(info, msg, whitelist, order).positions.len() == msg.num_tokens,
{
    let n = msg.num_tokens as nat;
    lemma_rearranged_numbers(order, n);
    let table = first_table(order);
    let ids = token_ids(table);
    assert forall|i: int| 0 <= i < table.len() implies 1 <= (#[trigger] table[i]).position <= n && 1
        <= table[i].token_id <= n by {
        assert(order.contains((i + 1) as u32));
    }
    assert forall|i: int, j: int| 0 <= i < ids.len() && 0 <= j < ids.len() && i != j implies ids[i]
        != ids[j] by {
        assert(ids[i] == table[i].token_id && ids[j] == table[j].token_id);
        assert(order.contains((i + 1) as u32));
        assert(order.contains((j + 1) as u32));
        assert(order[order.index_of((i + 1) as u32)] == (i + 1) as u32);
        assert(order[order.index_of((j + 1) as u32)] == (j + 1) as u32);
    }
}

/// How the setting up of a sale goes, given the scheme of its base token URI and
/// the order of its tokens. A whitelist that is no address is left out.
pub open spec fn instantiate_outcome(
    env: Env,
    info: MessageInfo,
    msg: InstantiateMsg,
    answers: Answers,
    scheme: Result<Seq<char>, Seq<char>>,
    order: Seq<u32>,
) -> Outcome {
    match setup_error(env, msg, scheme) {
        Some(e) => StepView::Done(Err(e)),
        None => match (msg.whitelist, answers.address) {
            (Some(input), None) => StepView::Ask(QuestionView::ValidateAddress { input: input@ }),
            (Some(_), Some(Ok(address))) => StepView::Done(
                Ok(
                    (
                        first_state(info, msg, Some(address@), order),
                        setup_response(env, info, msg),
                    ),
                ),
            ),
            _ => StepView::Done(
                Ok((first_state(info, msg, None, order), setup_response(env, info, msg))),
            ),
        },
    }
}

/// Sets up a sale.
pub fn instantiate(env: &Env, info: &MessageInfo, msg: InstantiateMsg, answers: &Answers) -> (step:
    Step<(State, Response), ContractError>)
    ensures
        step.deep_view() == instantiate_outcome(
            *env,
            *info,
            msg,
            *answers,
            url_scheme(msg.base_token_uri@),
            random_order(env.height, numbered(msg.num_tokens as nat)),
        ),
        step matches Step::Done(Ok((state, _))) ==> state.deep_view().fresh(),
{
    match check_setup(env, &msg, parse_url_scheme(msg.base_token_uri.as_str())) {
        Err(e) => {
            return Step::Done(Err(e));
        },
        Ok(()) => {},
    }
    let whitelist = match &msg.whitelist {
        None => None,
        Some(input) => match &answers.address {
            None => {
                return Step::Ask(Question::ValidateAddress { input: input.clone() });
            },
            Some(Ok(address)) => Some(address.clone()),
            Some(Err(_)) => None,
        },
    };
    match random_token_list(env, number(msg.num_tokens)) {
        Err(e) => Step::Done(Err(e)),
        Ok(order) => {
            proof {
                lemma_first_inv(*info, msg, whitelist.deep_view(), order@);
            }
            Step::Done(Ok(open_sale(env, info, msg, whitelist, &order)))
        },
    }
}

/// How a report on the making of the token contract is taken, given the address in
/// it.
pub open spec fn reply_outcome(state: StateView, address: Option<Seq<char>>) -> Result<
    (StateView, ResponseView),
    ContractErrorView,
> {
    match address {
        Some(address) => Ok(
            (
                StateView { sg721_address: Some(address), ..state },
                ResponseView::empty().attribute("action"@, "instantiate_sg721_reply"@),
            ),
        ),
        None => Err(ContractErrorView::InstantiateSg721Error {  }),
    }
}

/// Keeps the address of the token contract.
pub fn take_reply(state: &mut State, address: Option<String>) -> (r: Result<
    Response,
    ContractError,
>)
    ensures
        carried_out(
            reply_outcome(old(state).deep_view(), address.deep_view()),
            old(state).deep_view(),
            final(state).deep_view(),
            r,
        ),
{
    match address {
        Some(address) => {
            state.sg721_address = Some(address);
            Ok(Response::new().add_attribute("action", "instantiate_sg721_reply".to_owned()))
        },
        None => Err(ContractError::InstantiateSg721Error {  }),
    }
}

/// The address of the token contract in a report on its making.
pub open spec fn reported_address(result: Result<Option<Vec<u8>>, String>) -> Option<Seq<char>> {
    match result {
        Ok(Some(data)) => reply_address(data@, usize::BITS),
        _ => None,
    }
}

/// Takes the chain's report on the making of the token contract. A sale that is in
/// order, or fresh, stays so.
pub fn reply(state: &mut State, msg: Reply) -> (r: Result<Response, ContractError>)
    ensures
        if msg.id == INSTANTIATE_SG721_REPLY_ID {
            carried_out(
                reply_outcome(old(state).deep_view(), reported_address(msg.result)),
                old(state).deep_view(),
                final(state).deep_view(),
                r,
            )
        } else {
            &&& result_view(r) == Err::<ResponseView, ContractErrorView>(
                ContractErrorView::InvalidReplyID {  },
            )
            &&& final(state).deep_view() == old(state).deep_view()
        },
        old(state).deep_view().inv() ==> final(state).deep_view().inv(),
        old(state).deep_view().fresh() ==> final(state).deep_view().fresh(),
{
    if msg.id != INSTANTIATE_SG721_REPLY_ID {
        return Err(ContractError::InvalidReplyID {  });
    }
    take_reply(state, parse_reply_address(msg.id, msg.result))
}

} // verus!
