//! Minting: who may mint, at what price, and which token.

use crate::chain::{
    result_view, Answers, Coin, CoinView, CosmosMsg, CosmosMsgView, Env, MessageInfo, Question,
    QuestionView, Response, ResponseView, Step, StepView,
};
use crate::error::{ContractError, ContractErrorView, StdError, StdErrorView};
use crate::fees::{checked_fair_burn, fee_taken};
use crate::outside::{may_pay, mint_binary, mint_json, optional_payment, percent_of, readable};
use crate::outcome::{
    missing_sg721_address, no_sg721_address, not_admin, performed, unauthorized, Outcome,
};
use crate::state::{
    ascending, token_ids, Config, ConfigView, State, StateView, TokenPositionMapping,
};
use crate::text::{decimal, decimal_string};
use crate::tokens::{draw, drawn, find_token, pick, picked};
use crate::upheld::{lemma_mint_inv, lemma_mint_table_inv, table_inv};
use vstd::prelude::*;

verus! {

/// The share of a mint's price that is taken as a fee, in percent.
pub const MINT_FEE_PERCENT: u32 = 10;

/// What a mint costs: nothing without a fee; else the price of the whitelist while
/// one is active, and the public price otherwise.
pub open spec fn price(config: ConfigView, admin_no_fee: bool, answers: Answers) -> StepView<
    CoinView,
    StdErrorView,
> {
    if admin_no_fee {
        StepView::Done(Ok(CoinView { denom: config.unit_price.denom, amount: 0 }))
    } else {
        match config.whitelist {
            None => StepView::Done(Ok(config.unit_price)),
            Some(whitelist) => match answers.whitelist_price {
                None => StepView::Ask(QuestionView::WhitelistPrice { whitelist }),
                Some(Err(e)) => StepView::Done(Err(e.deep_view())),
                Some(Ok(set_up)) => if set_up.is_active {
                    StepView::Done(Ok(set_up.unit_price.deep_view()))
                } else {
                    StepView::Done(Ok(config.unit_price))
                },
            },
        }
    }
}

/// Says what a mint costs.
pub fn mint_price(config: &Config, admin_no_fee: bool, answers: &Answers) -> (step: Step<
    Coin,
    StdError,
>)
    ensures
        step.deep_view() == price(config.deep_view(), admin_no_fee, *answers),
{
    if admin_no_fee {
        return Step::Done(Ok(Coin { denom: config.unit_price.denom.clone(), amount: 0 }));
    }
    match &config.whitelist {
        None => Step::Done(Ok(config.unit_price.clone())),
        Some(whitelist) => match &answers.whitelist_price {
            None => Step::Ask(Question::WhitelistPrice { whitelist: whitelist.clone() }),
            Some(Err(e)) => Step::Done(Err(e.clone())),
            Some(Ok(set_up)) => if set_up.is_active {
                Step::Done(Ok(set_up.unit_price.clone()))
            } else {
                Step::Done(Ok(config.unit_price.clone()))
            },
        },
    }
}

/// Says how many tokens an address has minted.
pub fn mint_count(state: &State, address: &String) -> (count: u32)
    ensures
        count == state.deep_view().mint_count(address@),
{
    match state.minter_addrs.get(address) {
        Some(count) => count,
        None => 0,
    }
}

/// Whether a mint is a public one. It is not while a whitelist is active, and then
/// only members who are below the whitelist's limit may mint.
pub open spec fn public_mint(state: StateView, sender: Seq<char>, answers: Answers) -> StepView<
    bool,
    ContractErrorView,
> {
    match state.config.whitelist {
        None => StepView::Done(Ok(true)),
        Some(whitelist) => match answers.whitelist_config {
            None => StepView::Ask(QuestionView::WhitelistConfig { whitelist }),
            Some(Err(e)) => StepView::Done(Err(ContractErrorView::Std(e.deep_view()))),
            Some(Ok(set_up)) => if !set_up.is_active {
                StepView::Done(Ok(true))
            } else {
                match answers.has_member {
                    None => StepView::Ask(QuestionView::HasMember { whitelist, member: sender }),
                    Some(Err(e)) => StepView::Done(Err(ContractErrorView::Std(e.deep_view()))),
                    Some(Ok(member)) => if !member {
                        StepView::Done(Err(ContractErrorView::NotWhitelisted { addr: sender }))
                    } else if state.mint_count(sender) >= set_up.per_address_limit {
                        StepView::Done(Err(ContractErrorView::MaxPerAddressLimitExceeded {  }))
                    } else {
                        StepView::Done(Ok(false))
                    },
                }
            },
        },
    }
}

/// Finds out whether a mint is a public one.
pub fn is_public_mint(state: &State, info: &MessageInfo, answers: &Answers) -> (step: Step<
    bool,
    ContractError,
>)
    ensures
        step.deep_view() == public_mint(state.deep_view(), info.sender@, *answers),
{
    let whitelist = match &state.config.whitelist {
        None => {
            return Step::Done(Ok(true));
        },
        Some(whitelist) => whitelist,
    };
    let set_up = match &answers.whitelist_config {
        None => {
            return Step::Ask(Question::WhitelistConfig { whitelist: whitelist.clone() });
        },
        Some(Err(e)) => {
            return Step::Done(Err(ContractError::Std(e.clone())));
        },
        Some(Ok(set_up)) => set_up,
    };
    if !set_up.is_active {
        return Step::Done(Ok(true));
    }
    match &answers.has_member {
        None => Step::Ask(
            Question::HasMember { whitelist: whitelist.clone(), member: info.sender.clone() },
        ),
        Some(Err(e)) => Step::Done(Err(ContractError::Std(e.clone()))),
        Some(Ok(member)) => if !*member {
            Step::Done(Err(ContractError::NotWhitelisted { addr: info.sender.clone() }))
        } else if mint_count(state, &info.sender) >= set_up.per_address_limit {
            Step::Done(Err(ContractError::MaxPerAddressLimitExceeded {  }))
        } else {
            Step::Done(Ok(false))
        },
    }
}

/// What comes before the funds of a mint are read: its price, unless nothing is
/// left or the token contract is not made yet.
pub open spec fn priced(state: StateView, admin_no_fee: bool, answers: Answers) -> StepView<
    CoinView,
    ContractErrorView,
> {
    if state.mintable_num_tokens == 0 {
        StepView::Done(Err(ContractErrorView::SoldOut {  }))
    } else if state.sg721_address is None {
        StepView::Done(Err(ContractErrorView::Std(no_sg721_address())))
    } else {
        match price(state.config, admin_no_fee, answers) {
            StepView::Ask(question) => StepView::Ask(question),
            StepView::Done(Err(e)) => StepView::Done(Err(ContractErrorView::Std(e))),
            StepView::Done(Ok(due)) => StepView::Done(Ok(due)),
        }
    }
}

/// Whether a mint gets as far as reading the funds, and then cannot.
pub open spec fn stuck_on_funds(
    state: StateView,
    info: MessageInfo,
    admin_no_fee: bool,
    answers: Answers,
) -> bool {
    &&& priced(state, admin_no_fee, answers) matches StepView::Done(Ok(_))
    &&& !readable(info.funds.deep_view(), state.config.unit_price.denom)
}

/// Finds out whether optional funds can be read.
fn are_readable(funds: &Vec<Coin>, denom: &String) -> (r: bool)
    ensures
        r == readable(funds.deep_view(), denom@),
{
    if funds.len() < 2 {
        return true;
    }
    let ghost all = funds.deep_view();
    for i in 0..funds.len()
        invariant
            all == funds.deep_view(),
            forall|j: int| 0 <= j < i ==> (#[trigger] all[j]).denom == denom@,
    {
        if funds[i].denom != *denom {
            assert(all[i as int].denom != denom@);
            return true;
        }
    }
    false
}

/// Finds out whether a mint gets as far as reading the funds, and then cannot.
pub fn is_stuck_on_funds(
    state: &State,
    info: &MessageInfo,
    admin_no_fee: bool,
    answers: &Answers,
) -> (r: bool)
    ensures
        r == stuck_on_funds(state.deep_view(), *info, admin_no_fee, *answers),
{
    if state.mintable_num_tokens == 0 || state.sg721_address.is_none() {
        return false;
    }
    match mint_price(&state.config, admin_no_fee, answers) {
        Step::Done(Ok(_)) => !are_readable(&info.funds, &state.config.unit_price.denom),
        _ => false,
    }
}

/// The fee of a mint at a price.
pub open spec fn network_fee(amount: u128) -> u128 {
    ((amount * MINT_FEE_PERCENT) / 100) as u128
}

/// The fee of a mint and the messages that dispose of it. The payment has to be
/// exactly the price.
pub open spec fn settled(
    funds: Seq<CoinView>,
    denom: Seq<char>,
    admin_no_fee: bool,
    due: CoinView,
) -> Result<(u128, Seq<CosmosMsgView>), ContractErrorView> {
    match optional_payment(funds, denom) {
        Err(e) => Err(ContractErrorView::Payment(e)),
        Ok(paid) => if paid != due.amount {
            Err(
                ContractErrorView::IncorrectPaymentAmount(CoinView { denom, amount: paid }, due),
            )
        } else if admin_no_fee {
            Ok((0, Seq::empty()))
        } else {
            match fee_taken(funds, network_fee(due.amount)) {
                Err(e) => Err(ContractErrorView::Fee(e)),
                Ok(msgs) => Ok((network_fee(due.amount), msgs)),
            }
        },
    }
}

/// Takes the payment for a mint.
pub fn settle(info: &MessageInfo, denom: &String, admin_no_fee: bool, due: &Coin) -> (r: Result<
    (u128, Vec<CosmosMsg>),
    ContractError,
>)
    requires
        readable(info.funds.deep_view(), denom@),
    ensures
        result_view(r) == settled(
            info.funds.deep_view(),
            denom@,
            admin_no_fee,
            due.deep_view(),
        ),
{
    let paid = match may_pay(&info.funds, denom.as_str()) {
        Err(e) => {
            return Err(ContractError::Payment(e));
        },
        Ok(paid) => paid,
    };
    if paid != due.amount {
        return Err(
            ContractError::IncorrectPaymentAmount(
                Coin { denom: denom.clone(), amount: paid },
                due.clone(),
            ),
        );
    }
    if admin_no_fee {
        let msgs: Vec<CosmosMsg> = Vec::new();
        assert(msgs.deep_view() =~= Seq::empty());
        return Ok((0, msgs));
    }
    let fee = percent_of(due.amount, MINT_FEE_PERCENT as u64);
    match checked_fair_burn(info, fee) {
        Err(e) => Err(ContractError::Fee(e)),
        Ok(msgs) => Ok((fee, msgs)),
    }
}

/// Which entry of the table a mint takes: that of the token asked for, or the one
/// that the drawn number picks.
pub open spec fn chosen(state: StateView, token_id: Option<u32>, r: u32) -> Result<
    int,
    ContractErrorView,
> {
    match token_id {
        Some(token_id) => if token_id == 0 || token_id > state.config.num_tokens {
            Err(ContractErrorView::InvalidTokenId {  })
        } else {
            match token_ids(state.positions).index_of_first(token_id) {
                Some(at) => Ok(at),
                None => Err(ContractErrorView::TokenIdAlreadySold { token_id }),
            }
        },
        None => Ok(picked(state.mintable_num_tokens, r)),
    }
}

/// Chooses the entry that a mint of a given token takes.
pub fn choose_token(state: &State, token_id: u32) -> (r: Result<usize, ContractError>)
    ensures
        match r {
            Ok(at) => at < state.mintable_token_positions@.len() && chosen(
                state.deep_view(),
                Some(token_id),
                0,
            ) == Ok::<int, ContractErrorView>(at as int),
            Err(e) => chosen(state.deep_view(), Some(token_id), 0) == Err::<int, ContractErrorView>(
                e.deep_view(),
            ),
        },
{
    if token_id == 0 || token_id > state.config.num_tokens {
        return Err(ContractError::InvalidTokenId {  });
    }
    match find_token(&state.mintable_token_positions, token_id) {
        Some(at) => Ok(at),
        None => Err(ContractError::TokenIdAlreadySold { token_id }),
    }
}

/// Chooses the entry that chance gives to a mint.
pub fn random_mintable_token_mapping(state: &State, env: &Env, sender: &String) -> (at: usize)
    requires
        state.mintable_token_positions@.len() == state.mintable_num_tokens,
        state.mintable_num_tokens > 0,
    ensures
        at == picked(
            state.mintable_num_tokens,
            drawn(sender@, state.mintable_num_tokens, env.height),
        ),
        at < state.mintable_token_positions@.len(),
{
    let r = draw(sender, state.mintable_num_tokens, env.height);
    pick(state.mintable_num_tokens, r) as usize
}

/// Where the description of a token is found.
pub open spec fn token_uri(base: Seq<char>, token_id: u32) -> Seq<char> {
    base + "/"@ + decimal(token_id as nat)
}

/// What the token contract is told in order to make a token.
pub open spec fn encoded_mint(base: Seq<char>, token_id: u32, owner: Seq<char>) -> Seq<u8> {
    mint_json(decimal(token_id as nat), owner, token_uri(base, token_id))
}

/// The message that makes a token.
pub open spec fn mint_message(contract_addr: Seq<char>, msg: Seq<u8>) -> CosmosMsgView {
    CosmosMsgView::Execute { contract_addr, msg, funds: Seq::empty() }
}

/// The state after the entry at an index has been minted by a sender: the entry is
/// gone, and one more mint counts for the sender.
pub open spec fn after_mint(state: StateView, sender: Seq<char>, at: int) -> StateView {
    StateView {
        mintable_num_tokens: (state.mintable_num_tokens - 1) as u32,
        positions: state.positions.remove(at),
        minters: state.minters.insert(sender, (state.mint_count(sender) + 1) as u32),
        ..state
    }
}

/// The response to a mint, given what the token contract is told.
pub open spec fn mint_response(
    contract_addr: Seq<char>,
    action: Seq<char>,
    sender: Seq<char>,
    owner: Seq<char>,
    token_id: u32,
    msg: Seq<u8>,
    fee: u128,
    amount: u128,
    fee_msgs: Seq<CosmosMsgView>,
) -> ResponseView {
    ResponseView::empty().attribute("action"@, action).attribute("sender"@, sender).attribute(
        "recipient"@,
        owner,
    ).attribute("token_id"@, decimal(token_id as nat)).attribute(
        "network_fee"@,
        decimal(fee as nat),
    ).attribute("mint_price"@, decimal(amount as nat)).plain_messages(
        fee_msgs.push(mint_message(contract_addr, msg)),
    )
}

/// Removing an entry from an ascending table leaves it ascending.
pub proof fn lemma_remove_ascending(table: Seq<TokenPositionMapping>, at: int)
    requires
        ascending(table),
        0 <= at < table.len(),
    ensures
        ascending(table.remove(at)),
{
    let less = table.remove(at);
    assert forall|i: int, j: int| 0 <= i < j < less.len() implies (#[trigger] less[i]).position < (
    #[trigger] less[j]).position by {
        let a = if i < at {
            i
        } else {
            i + 1
        };
        let b = if j < at {
            j
        } else {
            j + 1
        };
        assert(less[i] == table[a]);
        assert(less[j] == table[b]);
    }
}

/// A mint leaves a state on which every message may rely.
pub proof fn lemma_mint_wf(state: StateView, sender: Seq<char>, at: int)
    requires
        state.wf(),
        0 <= at < state.positions.len(),
    ensures
        after_mint(state, sender, at).wf(),
        state.mint_count(sender) < u32::MAX,
{
    let after = after_mint(state, sender, at);
    lemma_remove_ascending(state.positions, at);
    assert(state.minters.contains_key(sender) ==> state.minters[sender] + state.mintable_num_tokens
        <= u32::MAX);
    assert forall|a: Seq<char>| #[trigger] after.minters.contains_key(a) implies after.minters[a]
        + after.mintable_num_tokens <= u32::MAX by {
        if a != sender {
            assert(state.minters.contains_key(a));
        }
    }
}

/// Takes the entry at an index from the table, counts it for the sender, and tells
/// the token contract what it is given to tell.
pub fn record_mint(
    state: &mut State,
    info: &MessageInfo,
    action: &str,
    contract_addr: String,
    owner: String,
    at: usize,
    msg: Vec<u8>,
    fee: u128,
    amount: u128,
    fee_msgs: Vec<CosmosMsg>,
) -> (response: Response)
    requires
        old(state).deep_view().wf(),
        at < old(state).mintable_token_positions@.len(),
    ensures
        final(state).deep_view() == after_mint(old(state).deep_view(), info.sender@, at as int),
        final(state).deep_view().wf(),
        response.deep_view() == mint_response(
            contract_addr@,
            action@,
            info.sender@,
            owner@,
            old(state).mintable_token_positions@[at as int].token_id,
            msg@,
            fee,
            amount,
            fee_msgs.deep_view(),
        ),
{
    let ghost before = state.deep_view();
    let id_text = decimal_string(state.mintable_token_positions[at].token_id as u128);
    let funds: Vec<Coin> = Vec::new();
    assert(funds.deep_view() =~= Seq::empty());
    let ghost fee_list = fee_msgs.deep_view();
    let mut msgs = fee_msgs;
    msgs.push(CosmosMsg::Execute { contract_addr, msg, funds });
    assert(msgs.deep_view() =~= fee_list.push(mint_message(contract_addr@, msg@)));
    let count = mint_count(state, &info.sender);
    proof {
        lemma_mint_wf(before, info.sender@, at as int);
    }
    let _ = state.mintable_token_positions.remove(at);
    state.mintable_num_tokens = state.mintable_num_tokens - 1;
    state.minter_addrs.set(&info.sender, count + 1);
    assert(state.deep_view() == after_mint(before, info.sender@, at as int));
    Response::new().add_attribute("action", action.to_owned()).add_attribute(
        "sender",
        info.sender.clone(),
    ).add_attribute("recipient", owner).add_attribute("token_id", id_text).add_attribute(
        "network_fee",
        decimal_string(fee),
    ).add_attribute("mint_price", decimal_string(amount)).add_messages(msgs)
}

/// Writes down what the token contract is told in order to make a token.
pub fn encode_mint(base: &String, token_id: u32, owner: &String) -> (r: Result<Vec<u8>, StdError>)
    ensures
        r is Ok,
        r->Ok_0@ == encoded_mint(base@, token_id, owner@),
{
    let id_text = decimal_string(token_id as u128);
    let mut uri = base.clone();
    uri.append("/");
    uri.append(id_text.as_str());
    mint_binary(id_text, owner.clone(), uri)
}

/// How a mint goes, once it is settled that the sender may.
pub open spec fn mint_outcome(
    state: StateView,
    env: Env,
    info: MessageInfo,
    action: Seq<char>,
    admin_no_fee: bool,
    recipient: Option<Seq<char>>,
    token_id: Option<u32>,
    answers: Answers,
) -> Outcome {
    let sender = info.sender@;
    let owner = match recipient {
        Some(recipient) => recipient,
        None => sender,
    };
    match priced(state, admin_no_fee, answers) {
        StepView::Ask(question) => StepView::Ask(question),
        StepView::Done(Err(e)) => StepView::Done(Err(e)),
        StepView::Done(Ok(due)) => match settled(
            info.funds.deep_view(),
            state.config.unit_price.denom,
            admin_no_fee,
            due,
        ) {
            Err(e) => StepView::Done(Err(e)),
            Ok((fee, fee_msgs)) => match chosen(
                state,
                token_id,
                drawn(sender, state.mintable_num_tokens, env.height),
            ) {
                Err(e) => StepView::Done(Err(e)),
                Ok(at) => StepView::Done(
                    Ok(
                        (
                            after_mint(state, sender, at),
                            mint_response(
                                state.sg721_address->0,
                                action,
                                sender,
                                owner,
                                state.positions[at].token_id,
                                encoded_mint(
                                    state.config.base_token_uri,
                                    state.positions[at].token_id,
                                    owner,
                                ),
                                fee,
                                due.amount,
                                fee_msgs,
                            ),
                        ),
                    ),
                ),
            },
        },
    }
}

/// Mints a token: the one asked for, or one that chance picks. A sale that is in
/// order stays so.
pub fn _execute_mint(
    state: &mut State,
    env: &Env,
    info: &MessageInfo,
    action: &str,
    admin_no_fee: bool,
    recipient: Option<String>,
    token_id: Option<u32>,
    answers: &Answers,
) -> (step: Step<Response, ContractError>)
    requires
        old(state).deep_view().wf(),
        !stuck_on_funds(old(state).deep_view(), *info, admin_no_fee, *answers),
    ensures
        performed(
            mint_outcome(
                old(state).deep_view(),
                *env,
                *info,
                action@,
                admin_no_fee,
                recipient.deep_view(),
                token_id,
                *answers,
            ),
            old(state).deep_view(),
            final(state).deep_view(),
            step,
        ),
        final(state).deep_view().wf(),
        table_inv(old(state).mintable_token_positions@, old(state).config.num_tokens) ==> table_inv(
            final(state).mintable_token_positions@,
            final(state).config.num_tokens,
        ),
        old(state).deep_view().inv() ==> final(state).deep_view().inv(),
{
    if state.mintable_num_tokens == 0 {
        return Step::Done(Err(ContractError::SoldOut {  }));
    }
    let sg721_address = match &state.sg721_address {
        None => {
            return Step::Done(Err(ContractError::Std(missing_sg721_address())));
        },
        Some(address) => address.clone(),
    };
    let owner = match recipient {
        Some(recipient) => recipient,
        None => info.sender.clone(),
    };
    let due = match mint_price(&state.config, admin_no_fee, answers) {
        Step::Ask(question) => {
            return Step::Ask(question);
        },
        Step::Done(Err(e)) => {
            return Step::Done(Err(ContractError::Std(e)));
        },
        Step::Done(Ok(due)) => due,
    };
    let (fee, fee_msgs) = match settle(
        info,
        &state.config.unit_price.denom,
        admin_no_fee,
        &due,
    ) {
        Err(e) => {
            return Step::Done(Err(e));
        },
        Ok(settled) => settled,
    };
    let at = match token_id {
        Some(token_id) => match choose_token(state, token_id) {
            Err(e) => {
                return Step::Done(Err(e));
            },
            Ok(at) => at,
        },
        None => random_mintable_token_mapping(state, env, &info.sender),
    };
    proof {
        let before = state.deep_view();
        if table_inv(before.positions, before.config.num_tokens) {
            lemma_mint_table_inv(before.positions, at as int, before.config.num_tokens);
        }
        if before.inv() {
            lemma_mint_inv(before, info.sender@, at as int);
        }
    }
    let token_id = state.mintable_token_positions[at].token_id;
    match encode_mint(&state.config.base_token_uri, token_id, &owner) {
        Err(e) => Step::Done(Err(ContractError::Std(e))),
        Ok(msg) => Step::Done(
            Ok(
                record_mint(
                    state,
                    info,
                    action,
                    sg721_address,
                    owner,
                    at,
                    msg,
                    fee,
                    due.amount,
                    fee_msgs,
                ),
            ),
        ),
    }
}

/// What keeps a sender from minting: the whitelist, the start time, or the limit
/// per address.
pub open spec fn kept_from_minting(
    state: StateView,
    env: Env,
    info: MessageInfo,
    answers: Answers,
) -> Option<Outcome> {
    match public_mint(state, info.sender@, answers) {
        StepView::Ask(question) => Some(StepView::Ask(question)),
        StepView::Done(Err(e)) => Some(StepView::Done(Err(e))),
        StepView::Done(Ok(public)) => if public && env.time < state.config.start_time {
            Some(StepView::Done(Err(ContractErrorView::BeforeMintStartTime {  })))
        } else if state.mint_count(info.sender@) >= state.config.per_address_limit {
            Some(StepView::Done(Err(ContractErrorView::MaxPerAddressLimitExceeded {  })))
        } else {
            None
        },
    }
}

/// Finds out what keeps a sender from minting.
pub fn keep_from_minting(state: &State, env: &Env, info: &MessageInfo, answers: &Answers) -> (r:
    Option<Step<Response, ContractError>>)
    ensures
        match kept_from_minting(state.deep_view(), *env, *info, *answers) {
            Some(outcome) => r is Some && performed(
                outcome,
                state.deep_view(),
                state.deep_view(),
                r->0,
            ),
            None => r is None,
        },
{
    match is_public_mint(state, info, answers) {
        Step::Ask(question) => {
            return Some(Step::Ask(question));
        },
        Step::Done(Err(e)) => {
            return Some(Step::Done(Err(e)));
        },
        Step::Done(Ok(public)) => {
            if public && env.time < state.config.start_time {
                return Some(Step::Done(Err(ContractError::BeforeMintStartTime {  })));
            }
        },
    }
    if mint_count(state, &info.sender) >= state.config.per_address_limit {
        return Some(Step::Done(Err(ContractError::MaxPerAddressLimitExceeded {  })));
    }
    None
}

/// How a mint by a sender for itself goes.
pub open spec fn mint_sender_outcome(
    state: StateView,
    env: Env,
    info: MessageInfo,
    answers: Answers,
) -> Outcome {
    match kept_from_minting(state, env, info, answers) {
        Some(outcome) => outcome,
        None => mint_outcome(state, env, info, "mint_sender"@, false, None, None, answers),
    }
}

/// Mints a token for the sender.
pub fn execute_mint_sender(
    state: &mut State,
    env: &Env,
    info: &MessageInfo,
    answers: &Answers,
) -> (step: Step<Response, ContractError>)
    requires
        old(state).deep_view().wf(),
        kept_from_minting(old(state).deep_view(), *env, *info, *answers) is None
            ==> !stuck_on_funds(old(state).deep_view(), *info, false, *answers),
    ensures
        performed(
            mint_sender_outcome(old(state).deep_view(), *env, *info, *answers),
            old(state).deep_view(),
            final(state).deep_view(),
            step,
        ),
        final(state).deep_view().wf(),
{
    match keep_from_minting(state, env, info, answers) {
        Some(step) => step,
        None => _execute_mint(state, env, info, "mint_sender", false, None, None, answers),
    }
}

/// What keeps a sender from minting for someone else: the recipient is no address,
/// or the sender is not the admin. Else the address of the recipient.
pub open spec fn admin_mint_checked(
    state: StateView,
    info: MessageInfo,
    recipient: Seq<char>,
    answers: Answers,
) -> StepView<Seq<char>, ContractErrorView> {
    match answers.address {
        None => StepView::Ask(QuestionView::ValidateAddress { input: recipient }),
        Some(Err(e)) => StepView::Done(Err(ContractErrorView::Std(e.deep_view()))),
        Some(Ok(address)) => if info.sender@ != state.config.admin {
            StepView::Done(Err(not_admin()))
        } else {
            StepView::Done(Ok(address@))
        },
    }
}

/// How a mint by the admin for someone else goes.
pub open spec fn mint_by_admin_outcome(
    state: StateView,
    env: Env,
    info: MessageInfo,
    action: Seq<char>,
    recipient: Seq<char>,
    token_id: Option<u32>,
    answers: Answers,
) -> Outcome {
    match admin_mint_checked(state, info, recipient, answers) {
        StepView::Ask(question) => StepView::Ask(question),
        StepView::Done(Err(e)) => StepView::Done(Err(e)),
        StepView::Done(Ok(address)) => mint_outcome(
            state,
            env,
            info,
            action,
            true,
            Some(address),
            token_id,
            answers,
        ),
    }
}

/// Admits the admin, and only the admin, to mint for someone else.
pub fn check_admin_mint(state: &State, info: &MessageInfo, recipient: &String, answers: &Answers) -> (step: Step<
    String,
    ContractError,
>)
    ensures
        step.deep_view() == admin_mint_checked(state.deep_view(), *info, recipient@, *answers),
{
    match &answers.address {
        None => Step::Ask(Question::ValidateAddress { input: recipient.clone() }),
        Some(Err(e)) => Step::Done(Err(ContractError::Std(e.clone()))),
        Some(Ok(address)) => if info.sender != state.config.admin {
            Step::Done(Err(unauthorized()))
        } else {
            Step::Done(Ok(address.clone()))
        },
    }
}

/// Mints a token that chance picks for someone else.
pub fn execute_mint_to(
    state: &mut State,
    env: &Env,
    info: &MessageInfo,
    recipient: String,
    answers: &Answers,
) -> (step: Step<Response, ContractError>)
    requires
        old(state).deep_view().wf(),
        admin_mint_checked(old(state).deep_view(), *info, recipient@, *answers) matches StepView::Done(Ok(_))
            ==> !stuck_on_funds(old(state).deep_view(), *info, true, *answers),
    ensures
        performed(
            mint_by_admin_outcome(
                old(state).deep_view(),
                *env,
                *info,
                "mint_to"@,
                recipient@,
                None,
                *answers,
            ),
            old(state).deep_view(),
            final(state).deep_view(),
            step,
        ),
        final(state).deep_view().wf(),
{
    match check_admin_mint(state, info, &recipient, answers) {
        Step::Ask(question) => Step::Ask(question),
        Step::Done(Err(e)) => Step::Done(Err(e)),
        Step::Done(Ok(address)) => _execute_mint(
            state,
            env,
            info,
            "mint_to",
            true,
            Some(address),
            None,
            answers,
        ),
    }
}

/// Mints a given token for someone else.
pub fn execute_mint_for(
    state: &mut State,
    env: &Env,
    info: &MessageInfo,
    token_id: u32,
    recipient: String,
    answers: &Answers,
) -> (step: Step<Response, ContractError>)
    requires
        old(state).deep_view().wf(),
        admin_mint_checked(old(state).deep_view(), *info, recipient@, *answers) matches StepView::Done(Ok(_))
            ==> !stuck_on_funds(old(state).deep_view(), *info, true, *answers),
    ensures
        performed(
            mint_by_admin_outcome(
                old(state).deep_view(),
                *env,
                *info,
                "mint_for"@,
                recipient@,
                Some(token_id),
                *answers,
            ),
            old(state).deep_view(),
            final(state).deep_view(),
            step,
        ),
        final(state).deep_view().wf(),
{
    match check_admin_mint(state, info, &recipient, answers) {
        Step::Ask(question) => Step::Ask(question),
        Step::Done(Err(e)) => Step::Done(Err(e)),
        Step::Done(Ok(address)) => _execute_mint(
            state,
            env,
            info,
            "mint_for",
            true,
            Some(address),
            Some(token_id),
            answers,
        ),
    }
}

} // verus!
