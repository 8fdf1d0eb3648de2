//! What the contract promises as a whole.

pub mod minting;
pub mod models;
pub mod opening;
pub mod reading;
pub mod running;
pub mod tables;

use crate::admin::{
    set_whitelist_outcome, shuffle_outcome, update_per_address_limit_outcome,
    update_start_time_outcome, withdraw_outcome, SHUFFLE_FEE,
};
use crate::chain::{
    plain_view, Answers, CoinView, CosmosMsgView, Env, MessageInfo, QuestionView, ResponseView,
    StepView,
};
use crate::contract::execute_outcome;
use crate::error::{ContractErrorView, PaymentErrorView, StdError, StdErrorView};
use crate::fees::{burned, fair_burn_view, NATIVE_DENOM};
use crate::history::{left_by, Call};
use crate::mint::{
    after_mint, chosen, encoded_mint, kept_from_minting, mint_message, mint_outcome,
    mint_sender_outcome, network_fee, price, token_uri,
};
use crate::msg::{ExecuteMsg, InstantiateMsg, QueryMsg, QueryResponseView};
use crate::outcome::{not_admin, Outcome};
use crate::outside::{
    optional_payment, permutes, required_payment, seconds_text, sha256, xoshiro_first,
};
use crate::query::query_outcome;
use crate::setup::{instantiate_outcome, reply_outcome, setup_error};
use crate::state::{places, token_ids, ConfigView, StateView};
use crate::text::{decimal, lemma_decimal_injective};
use crate::tokens::{
    drawn, index_order, lemma_picked, lemma_rearranged, lemma_shuffled, random_order, PICK_RANGE,
};
use crate::upheld::lemma_token_removed;
use vstd::prelude::*;
use vstd::utf8::encode_utf8;

verus! {

/// Whether a call ends in success.
pub open spec fn succeeds(outcome: Outcome) -> bool {
    outcome matches StepView::Done(Ok(_))
}

/// The state that a call that succeeds leaves.
pub open spec fn reached(outcome: Outcome) -> StateView
    recommends
        succeeds(outcome),
{
    (outcome->Done_0->Ok_0).0
}

/// The response to a call that succeeds.
pub open spec fn response(outcome: Outcome) -> ResponseView
    recommends
        succeeds(outcome),
{
    (outcome->Done_0->Ok_0).1
}

/// Whether a message mints.
pub open spec fn mints(msg: ExecuteMsg) -> bool {
    msg is Mint || msg is MintTo || msg is MintFor
}

/// Whether a message is for the admin alone.
pub open spec fn for_admin(msg: ExecuteMsg) -> bool {
    !(msg is Mint) && !(msg is Shuffle)
}

/// Which token a message that mints takes, as an index of the table.
pub open spec fn taken(state: StateView, env: Env, info: MessageInfo, msg: ExecuteMsg) -> Result<
    int,
    ContractErrorView,
> {
    let token_id = match msg {
        ExecuteMsg::MintFor { token_id, .. } => Some(token_id),
        _ => None,
    };
    chosen(state, token_id, drawn(info.sender@, state.mintable_num_tokens, env.height))
}

/// What a mint chooses is in the table.
proof fn lemma_chosen(state: StateView, token_id: Option<u32>, r: u32)
    requires
        state.wf(),
        state.mintable_num_tokens > 0,
        chosen(state, token_id, r) is Ok,
    ensures
        0 <= chosen(state, token_id, r)->Ok_0 < state.positions.len(),
        token_id matches Some(id) ==> state.positions[chosen(state, token_id, r)->Ok_0].token_id
            == id,
{
    match token_id {
        Some(id) => {
            token_ids(state.positions).index_of_first_ensures(id);
        },
        None => {
            lemma_picked(state.mintable_num_tokens, r);
        },
    }
}

/// A mint that succeeds takes exactly one token that was left: it leaves the table,
/// there is one less to mint, and one more counts for the sender and for nobody
/// else.
pub proof fn law_mint_takes_one_token(
    state: StateView,
    env: Env,
    info: MessageInfo,
    msg: ExecuteMsg,
    answers: Answers,
)
    requires
        state.wf(),
        mints(msg),
        succeeds(execute_outcome(state, env, info, msg, answers)),
    ensures
        taken(state, env, info, msg) is Ok,
        ({
            let at = taken(state, env, info, msg)->Ok_0;
            let after = reached(execute_outcome(state, env, info, msg, answers));
            let id = state.positions[at].token_id;
            &&& 0 <= at < state.positions.len()
            &&& msg matches ExecuteMsg::MintFor { token_id, .. } ==> id == token_id
            &&& after == after_mint(state, info.sender@, at)
            &&& after.mintable_num_tokens == state.mintable_num_tokens - 1
            &&& after.positions == state.positions.remove(at)
            &&& after.mint_count(info.sender@) == state.mint_count(info.sender@) + 1
            &&& forall|a: Seq<char>|
                a != info.sender@ ==> #[trigger] after.mint_count(a) == state.mint_count(a)
            &&& state.inv() ==> {
                &&& !token_ids(after.positions).contains(id)
                &&& forall|t: u32|
                    t != id ==> (#[trigger] token_ids(after.positions).contains(t) <==> token_ids(
                        state.positions,
                    ).contains(t))
            }
        }),
{
    let token_id = match msg {
        ExecuteMsg::MintFor { token_id, .. } => Some(token_id),
        _ => None,
    };
    lemma_chosen(
        state,
        token_id,
        drawn(info.sender@, state.mintable_num_tokens, env.height),
    );
    let at = taken(state, env, info, msg)->Ok_0;
    assert(state.minters.contains_key(info.sender@) ==> state.minters[info.sender@]
        + state.mintable_num_tokens <= u32::MAX);
    if state.inv() {
        lemma_token_removed(state.positions, at);
    }
}

/// A mint that succeeds tells the token contract, last of all, to make the token
/// that was taken, for the sender or for the recipient; and logs its number.
pub proof fn law_mint_is_told(state: StateView, call: Call)
    requires
        state.wf(),
        call.has_minted(state),
    ensures
        ({
            let id = call.minted(state);
            let owner = if call.msg is Mint {
                call.info.sender@
            } else {
                call.answers.address->0->Ok_0@
            };
            let told = response(call.outcome(state));
            &&& told.messages.len() == if call.msg is Mint {
                3
            } else {
                1int
            }
            &&& told.messages.last() == plain_view(
                mint_message(
                    state.sg721_address->0,
                    encoded_mint(state.config.base_token_uri, id, owner),
                ),
            )
            &&& told.attributes[3] == ("token_id"@, decimal(id as nat))
        }),
{
    law_mint_takes_one_token(state, call.env, call.info, call.msg, call.answers);
}

/// A token that has been minted is sold: asked for again, it is refused.
pub proof fn law_minted_token_is_sold(
    state: StateView,
    env: Env,
    info: MessageInfo,
    msg: ExecuteMsg,
    answers: Answers,
    r: u32,
)
    requires
        state.inv(),
        mints(msg),
        succeeds(execute_outcome(state, env, info, msg, answers)),
    ensures
        ({
            let id = state.positions[taken(state, env, info, msg)->Ok_0].token_id;
            chosen(reached(execute_outcome(state, env, info, msg, answers)), Some(id), r) == Err::<
                int,
                ContractErrorView,
            >(ContractErrorView::TokenIdAlreadySold { token_id: id })
        }),
{
    law_mint_takes_one_token(state, env, info, msg, answers);
    let id = state.positions[taken(state, env, info, msg)->Ok_0].token_id;
    let after = reached(execute_outcome(state, env, info, msg, answers));
    token_ids(after.positions).index_of_first_ensures(id);
}

/// Where no token is asked for, chance takes one of the first or the last fifty
/// that are left.
pub proof fn law_chance_picks_from_the_ends(
    state: StateView,
    env: Env,
    info: MessageInfo,
    msg: ExecuteMsg,
    answers: Answers,
)
    requires
        state.wf(),
        msg is Mint || msg is MintTo,
        succeeds(execute_outcome(state, env, info, msg, answers)),
    ensures
        ({
            let at = taken(state, env, info, msg)->Ok_0;
            0 <= at < PICK_RANGE || state.positions.len() - PICK_RANGE <= at < state.positions.len()
        }),
{
    law_mint_takes_one_token(state, env, info, msg, answers);
    lemma_picked(
        state.mintable_num_tokens,
        drawn(info.sender@, state.mintable_num_tokens, env.height),
    );
}

/// What chance picks depends on the sender, the tokens that are left and the height
/// of the block, and on nothing else: of the first number of the generator that
/// their digest seeds, the remainder by fifty, or by the number of tokens if that is
/// less, is the distance from one end of the order, the last if the number is odd.
pub proof fn law_pick_depends_on_few(
    a: StateView,
    b: StateView,
    env_a: Env,
    env_b: Env,
    sender: Seq<char>,
)
    requires
        a.positions.len() == a.mintable_num_tokens,
        a.mintable_num_tokens > 0,
        a.positions == b.positions,
        a.mintable_num_tokens == b.mintable_num_tokens,
        env_a.height == env_b.height,
    ensures
        ({
            let n = a.mintable_num_tokens;
            let text = sender + decimal(n as nat) + decimal(env_a.height as nat);
            let r = xoshiro_first(sha256(encode_utf8(text)).subrange(0, 16));
            let distance = r % if n < 50 {
                n
            } else {
                50
            };
            let at = if r % 2 == 1 {
                n - 1 - distance
            } else {
                distance as int
            };
            &&& 0 <= at < n
            &&& chosen(a, None, drawn(sender, a.mintable_num_tokens, env_a.height)) == Ok::<
                int,
                ContractErrorView,
            >(at)
            &&& chosen(b, None, drawn(sender, b.mintable_num_tokens, env_b.height)) == Ok::<
                int,
                ContractErrorView,
            >(at)
            &&& a.positions[at] == b.positions[at]
        }),
{
    lemma_picked(a.mintable_num_tokens, drawn(sender, a.mintable_num_tokens, env_a.height));
}

/// In a block, chance puts all lists of one length in the same order, whatever they
/// hold: the same index gives the element at each place, and each index once. So
/// equal lists stay equal. (That the order holds each index once, `random_token_list`
/// says of every order it has drawn.)
pub proof fn law_one_order_for_all_lists(height: u64, a: Seq<u32>, b: Seq<u32>)
    requires
        a.len() == b.len(),
        permutes(index_order(height, a.len()), a.len()),
    ensures
        ({
            let order = index_order(height, a.len());
            &&& random_order(height, a).len() == a.len()
            &&& random_order(height, b).len() == b.len()
            &&& forall|i: int|
                0 <= i < a.len() ==> {
                    &&& 0 <= #[trigger] order[i] < a.len()
                    &&& random_order(height, a)[i] == a[order[i]]
                    &&& random_order(height, b)[i] == b[order[i]]
                }
            &&& random_order(height, a).to_multiset() == a.to_multiset()
        }),
        a == b ==> random_order(height, a) == random_order(height, b),
{
    lemma_rearranged(a, index_order(height, a.len()));
}

/// Anyone can shuffle at any time, as long as exactly the fee is paid and a token is
/// left.
pub proof fn law_anyone_can_shuffle(state: StateView, info: MessageInfo, order: Seq<u32>)
    ensures
        shuffle_outcome(state, info, order) is Ok <==> state.mintable_num_tokens > 0
            && required_payment(info.funds.deep_view(), NATIVE_DENOM@) == Ok::<
            u128,
            PaymentErrorView,
        >(SHUFFLE_FEE),
{
}

/// A shuffle changes nothing but which token stands at which position.
pub proof fn law_shuffle_moves_tokens_only(state: StateView, info: MessageInfo, order: Seq<u32>)
    requires
        order.to_multiset() == places(state.positions).to_multiset(),
        shuffle_outcome(state, info, order) is Ok,
    ensures
        ({
            let after = shuffle_outcome(state, info, order)->Ok_0.0;
            &&& after == StateView { positions: after.positions, ..state }
            &&& places(after.positions) == places(state.positions)
            &&& token_ids(after.positions).to_multiset() == token_ids(
                state.positions,
            ).to_multiset()
        }),
{
    lemma_shuffled(state.positions, order, order.len());
}

/// The chain's report on the token contract keeps the invariant of a sale.
pub proof fn law_reply_keeps_the_invariant(state: StateView, address: Option<Seq<char>>)
    requires
        state.inv(),
        reply_outcome(state, address) is Ok,
    ensures
        reply_outcome(state, address)->Ok_0.0.inv(),
        state.fresh() ==> reply_outcome(state, address)->Ok_0.0.fresh(),
        reply_outcome(state, address)->Ok_0.0.sg721_address == address,
{
}

/// What no message changes: the admin, the price, the number of tokens, where they
/// are described, and the token contract.
pub proof fn law_terms_are_fixed(
    state: StateView,
    env: Env,
    info: MessageInfo,
    msg: ExecuteMsg,
    answers: Answers,
)
    requires
        succeeds(execute_outcome(state, env, info, msg, answers)),
    ensures
        ({
            let after = reached(execute_outcome(state, env, info, msg, answers));
            &&& after.config.admin == state.config.admin
            &&& after.config.unit_price == state.config.unit_price
            &&& after.config.num_tokens == state.config.num_tokens
            &&& after.config.base_token_uri == state.config.base_token_uri
            &&& after.config.sg721_code_id == state.config.sg721_code_id
            &&& after.sg721_address == state.sg721_address
        }),
{
}

/// Which message changes what: each term only the message that is there for it, the
/// table only a mint or a shuffle, the counts only a mint. What does not succeed
/// changes nothing.
pub proof fn law_each_message_changes_its_own(state: StateView, call: Call, after: StateView)
    requires
        after == left_by(state, call.outcome(state)),
    ensures
        !succeeds(call.outcome(state)) ==> after == state,
        after.config.start_time != state.config.start_time ==> call.msg is UpdateStartTime,
        after.config.per_address_limit != state.config.per_address_limit
            ==> call.msg is UpdatePerAddressLimit,
        after.config.whitelist != state.config.whitelist ==> call.msg is SetWhitelist,
        after.positions != state.positions ==> mints(call.msg) || call.msg is Shuffle,
        after.mintable_num_tokens != state.mintable_num_tokens ==> mints(call.msg),
        after.minters != state.minters ==> mints(call.msg),
        mints(call.msg) || call.msg is Shuffle || call.msg is Withdraw ==> after.config
            == state.config,
        call.msg is Withdraw ==> after == state,
        after.config == (ConfigView {
            start_time: after.config.start_time,
            per_address_limit: after.config.per_address_limit,
            whitelist: after.config.whitelist,
            ..state.config
        }),
        after.sg721_address == state.sg721_address,
{
}

/// Once the sale has started, neither the start time nor the whitelist changes any
/// more.
pub proof fn law_start_is_final(
    state: StateView,
    env: Env,
    info: MessageInfo,
    msg: ExecuteMsg,
    answers: Answers,
)
    requires
        env.time >= state.config.start_time,
        succeeds(execute_outcome(state, env, info, msg, answers)),
    ensures
        ({
            let after = reached(execute_outcome(state, env, info, msg, answers));
            &&& after.config.start_time == state.config.start_time
            &&& after.config.whitelist == state.config.whitelist
        }),
{
}

/// A whitelist that is active is not replaced.
pub proof fn law_active_whitelist_stays(
    state: StateView,
    env: Env,
    info: MessageInfo,
    msg: ExecuteMsg,
    answers: Answers,
)
    requires
        state.config.whitelist is Some,
        answers.whitelist_config matches Some(Ok(set_up)) && set_up.is_active,
        succeeds(execute_outcome(state, env, info, msg, answers)),
    ensures
        reached(execute_outcome(state, env, info, msg, answers)).config.whitelist
            == state.config.whitelist,
{
}

/// A sale only ever starts in the future: a start time that is set is not past.
pub proof fn law_start_is_not_past(
    state: StateView,
    env: Env,
    info: MessageInfo,
    start_time: u64,
)
    requires
        update_start_time_outcome(state, env, info, start_time) is Ok,
    ensures
        env.time < state.config.start_time,
        env.time <= start_time,
        update_start_time_outcome(state, env, info, start_time)->Ok_0.0.config.start_time
            == start_time,
{
}

/// Of the messages for the admin none succeeds for anyone else. What does not need
/// an address first is refused at once.
pub proof fn law_admin_only(
    state: StateView,
    env: Env,
    info: MessageInfo,
    msg: ExecuteMsg,
    answers: Answers,
)
    requires
        for_admin(msg),
        info.sender@ != state.config.admin,
    ensures
        !succeeds(execute_outcome(state, env, info, msg, answers)),
        !mints(msg) ==> execute_outcome(state, env, info, msg, answers) == Outcome::Done(
            Err(not_admin()),
        ),
        mints(msg) && (answers.address matches Some(Ok(_))) ==> execute_outcome(
            state,
            env,
            info,
            msg,
            answers,
        ) == Outcome::Done(Err(not_admin())),
{
}

/// A mint that succeeds has been paid for exactly: the admin pays nothing, anyone
/// else the price that holds.
pub proof fn law_exact_payment(
    state: StateView,
    env: Env,
    info: MessageInfo,
    msg: ExecuteMsg,
    answers: Answers,
)
    requires
        mints(msg),
        succeeds(execute_outcome(state, env, info, msg, answers)),
    ensures
        ({
            let paid = optional_payment(info.funds.deep_view(), state.config.unit_price.denom);
            &&& paid is Ok
            &&& msg is Mint ==> {
                &&& price(state.config, false, answers) matches StepView::Done(Ok(due))
                &&& paid->Ok_0 == due.amount
            }
            &&& !(msg is Mint) ==> paid->Ok_0 == 0
        }),
{
}

/// The price is that of the whitelist exactly while the whitelist is active.
pub proof fn law_price(state: StateView, answers: Answers)
    requires
        answers.whitelist_price matches Some(Ok(_)),
    ensures
        price(state.config, false, answers) == StepView::<CoinView, StdErrorView>::Done(
            Ok(
                if state.config.whitelist is Some && answers.whitelist_price->0->Ok_0.is_active {
                    answers.whitelist_price->0->Ok_0.unit_price.deep_view()
                } else {
                    state.config.unit_price
                },
            ),
        ),
{
}

/// A sender who mints stays within the limit per address, and while a whitelist is
/// active within its limit, as a member of it.
pub proof fn law_limit_per_address(
    state: StateView,
    env: Env,
    info: MessageInfo,
    answers: Answers,
)
    requires
        state.wf(),
        succeeds(mint_sender_outcome(state, env, info, answers)),
    ensures
        ({
            let after = reached(mint_sender_outcome(state, env, info, answers));
            &&& after.mint_count(info.sender@) <= state.config.per_address_limit
            &&& state.config.whitelist is Some && answers.whitelist_config->0->Ok_0.is_active ==> {
                &&& answers.has_member == Some(Ok::<bool, StdError>(true))
                &&& after.mint_count(info.sender@)
                    <= answers.whitelist_config->0->Ok_0.per_address_limit
            }
        }),
{
}

/// Before the start time only members of an active whitelist mint.
pub proof fn law_no_public_mint_before_start(
    state: StateView,
    env: Env,
    info: MessageInfo,
    answers: Answers,
)
    requires
        env.time < state.config.start_time,
        succeeds(mint_sender_outcome(state, env, info, answers)),
    ensures
        state.config.whitelist is Some,
        answers.whitelist_config matches Some(Ok(set_up)) && set_up.is_active,
        answers.has_member == Some(Ok::<bool, StdError>(true)),
{
}

/// When nothing is left, every mint that gets past its checks on the sender is
/// refused as sold out, and so is every shuffle that is paid for.
pub proof fn law_sold_out(
    state: StateView,
    env: Env,
    info: MessageInfo,
    action: Seq<char>,
    admin_no_fee: bool,
    recipient: Option<Seq<char>>,
    token_id: Option<u32>,
    answers: Answers,
    order: Seq<u32>,
)
    requires
        state.mintable_num_tokens == 0,
    ensures
        mint_outcome(state, env, info, action, admin_no_fee, recipient, token_id, answers)
            == Outcome::Done(Err(ContractErrorView::SoldOut {  })),
        shuffle_outcome(state, info, order) is Err,
        required_payment(info.funds.deep_view(), NATIVE_DENOM@) == Ok::<u128, PaymentErrorView>(
            SHUFFLE_FEE,
        ) ==> shuffle_outcome(state, info, order) == Err::<
            (StateView, ResponseView),
            ContractErrorView,
        >(ContractErrorView::SoldOut {  }),
{
}

/// A token that is gone cannot be minted again: who asks for it, with everything
/// else in order, is told that it is sold.
pub proof fn law_sold_token_is_refused(
    state: StateView,
    env: Env,
    info: MessageInfo,
    recipient: String,
    token_id: u32,
    answers: Answers,
)
    requires
        state.mintable_num_tokens > 0,
        state.sg721_address is Some,
        info.sender@ == state.config.admin,
        info.funds.deep_view().len() == 0,
        answers.address matches Some(Ok(_)),
        1 <= token_id <= state.config.num_tokens,
        !token_ids(state.positions).contains(token_id),
    ensures
        execute_outcome(state, env, info, ExecuteMsg::MintFor { token_id, recipient }, answers)
            == Outcome::Done(Err(ContractErrorView::TokenIdAlreadySold { token_id })),
{
    token_ids(state.positions).index_of_first_ensures(token_id);
}

/// A token that is left can be minted by the admin, for nothing, whoever it is for.
pub proof fn law_admin_can_mint_what_is_left(
    state: StateView,
    env: Env,
    info: MessageInfo,
    recipient: String,
    token_id: u32,
    answers: Answers,
)
    requires
        state.inv(),
        state.sg721_address is Some,
        info.sender@ == state.config.admin,
        info.funds.deep_view().len() == 0,
        answers.address matches Some(Ok(_)),
        token_ids(state.positions).contains(token_id),
    ensures
        ({
            let outcome = execute_outcome(
                state,
                env,
                info,
                ExecuteMsg::MintFor { token_id, recipient },
                answers,
            );
            &&& succeeds(outcome)
            &&& response(outcome).messages == seq![
                plain_view(
                    mint_message(
                        state.sg721_address->0,
                        encoded_mint(
                            state.config.base_token_uri,
                            token_id,
                            answers.address->0->Ok_0@,
                        ),
                    ),
                ),
            ]
        }),
{
    let ids = token_ids(state.positions);
    ids.index_of_first_ensures(token_id);
    let at = choose|i: int| 0 <= i < ids.len() && ids[i] == token_id;
    assert(state.positions[at].token_id == token_id);
    assert(state.positions.len() > 0);
    let outcome = execute_outcome(
        state,
        env,
        info,
        ExecuteMsg::MintFor { token_id, recipient },
        answers,
    );
    let found = ids.index_of_first(token_id)->0;
    assert(state.positions[found].token_id == token_id);
    assert(response(outcome).messages =~= seq![
        plain_view(
            mint_message(
                state.sg721_address->0,
                encoded_mint(
                    state.config.base_token_uri,
                    token_id,
                    answers.address->0->Ok_0@,
                ),
            ),
        ),
    ]);
}

/// A fee is disposed of whole: what is not burned, half of it rounded down, goes to
/// the community pool. The fee of a mint is a tenth of the price, rounded down.
pub proof fn law_fees(fee: u128, amount: u128)
    ensures
        burned(fee) == fee / 2,
        burned(fee) <= fee,
        fair_burn_view(fee) == seq![
            CosmosMsgView::Burn {
                amount: seq![CoinView { denom: NATIVE_DENOM@, amount: burned(fee) }],
            },
            CosmosMsgView::FundCommunityPool {
                amount: seq![
                    CoinView { denom: NATIVE_DENOM@, amount: (fee - burned(fee)) as u128 },
                ],
            },
        ],
        network_fee(amount) == amount / 10,
{
}

/// A sender whom nothing keeps from minting gets a token exactly by sending one coin,
/// of the sale's denomination, that holds the price that is due. A price of nothing
/// cannot be paid: its fee would have to be covered by something.
pub proof fn law_paid_mint_succeeds(
    state: StateView,
    env: Env,
    info: MessageInfo,
    answers: Answers,
    due: CoinView,
)
    requires
        state.inv(),
        state.sg721_address is Some,
        state.mintable_num_tokens > 0,
        kept_from_minting(state, env, info, answers) is None,
        price(state.config, false, answers) == StepView::<CoinView, StdErrorView>::Done(Ok(due)),
    ensures
        succeeds(mint_sender_outcome(state, env, info, answers)) <==> due.amount > 0
            && info.funds.deep_view() == seq![
            CoinView { denom: state.config.unit_price.denom, amount: due.amount },
        ],
{
    let funds = info.funds.deep_view();
    let coin = CoinView { denom: state.config.unit_price.denom, amount: due.amount };
    assert(network_fee(due.amount) <= due.amount);
    if funds == seq![coin] {
        assert(funds[0] == coin);
    }
    if succeeds(mint_sender_outcome(state, env, info, answers)) {
        assert(funds[0] == coin);
        assert(funds =~= seq![coin]);
    }
}

/// While a whitelist is active, a member who is below both limits gets a token for
/// the price of the whitelist, also before the start.
pub proof fn law_whitelist_mint_succeeds(
    state: StateView,
    env: Env,
    info: MessageInfo,
    answers: Answers,
)
    requires
        state.inv(),
        state.sg721_address is Some,
        state.mintable_num_tokens > 0,
        state.config.whitelist is Some,
        answers.whitelist_config matches Some(Ok(set_up)) && set_up.is_active && state.mint_count(
            info.sender@,
        ) < set_up.per_address_limit,
        answers.has_member == Some(Ok::<bool, StdError>(true)),
        answers.whitelist_price == answers.whitelist_config,
        state.mint_count(info.sender@) < state.config.per_address_limit,
        answers.whitelist_config->0->Ok_0.unit_price.amount > 0,
        info.funds.deep_view() == seq![
            CoinView {
                denom: state.config.unit_price.denom,
                amount: answers.whitelist_config->0->Ok_0.unit_price.amount,
            },
        ],
    ensures
        succeeds(mint_sender_outcome(state, env, info, answers)),
{
    let due = answers.whitelist_config->0->Ok_0.unit_price.deep_view();
    law_paid_mint_succeeds(state, env, info, answers, due);
}

/// While no whitelist is active, a mint succeeds for anyone who sends exactly the
/// price after the start, and is below the limit, as long as a token is left.
pub proof fn law_public_mint_succeeds(
    state: StateView,
    env: Env,
    info: MessageInfo,
    answers: Answers,
)
    requires
        state.inv(),
        state.sg721_address is Some,
        state.mintable_num_tokens > 0,
        state.config.whitelist is Some ==> {
            &&& answers.whitelist_config matches Some(Ok(set_up))
            &&& !set_up.is_active
            &&& answers.whitelist_price == answers.whitelist_config
        },
        env.time >= state.config.start_time,
        state.mint_count(info.sender@) < state.config.per_address_limit,
        info.funds.deep_view() == seq![state.config.unit_price],
    ensures
        succeeds(mint_sender_outcome(state, env, info, answers)),
{
    law_paid_mint_succeeds(state, env, info, answers, state.config.unit_price);
}

/// A withdrawal sends the admin the whole balance and changes nothing else.
pub proof fn law_withdraw(state: StateView, env: Env, info: MessageInfo, answers: Answers)
    requires
        info.sender@ == state.config.admin,
        answers.balance matches Some(Ok(balance)) && balance.amount > 0,
    ensures
        ({
            let outcome = withdraw_outcome(state, env, info, answers);
            &&& succeeds(outcome)
            &&& reached(outcome) == state
            &&& response(outcome).messages == seq![
                plain_view(
                    CosmosMsgView::Send {
                        to_address: state.config.admin,
                        amount: seq![answers.balance->0->Ok_0.deep_view()],
                    },
                ),
            ]
        }),
{
    let outcome = withdraw_outcome(state, env, info, answers);
    assert(response(outcome).messages =~= seq![
        plain_view(
            CosmosMsgView::Send {
                to_address: state.config.admin,
                amount: seq![answers.balance->0->Ok_0.deep_view()],
            },
        ),
    ]);
}

/// What was set is what is read afterwards.
pub proof fn law_reads_give_back_writes(
    state: StateView,
    env: Env,
    info: MessageInfo,
    start_time: u64,
    limit: u32,
    whitelist: Seq<char>,
    answers: Answers,
)
    ensures
        update_start_time_outcome(state, env, info, start_time) matches Ok((after, _))
            ==> query_outcome(after, QueryMsg::StartTime {  }, answers) == StepView::<
            QueryResponseView,
            StdErrorView,
        >::Done(
            Ok(QueryResponseView::StartTime { start_time: seconds_text(start_time) }),
        ),
        update_per_address_limit_outcome(state, info, limit) matches Ok((after, _))
            ==> state.sg721_address is Some ==> {
            &&& query_outcome(after, QueryMsg::Config {  }, answers) matches StepView::Done(
                Ok(QueryResponseView::Config(read)),
            )
            &&& read.per_address_limit == limit
        },
        set_whitelist_outcome(state, env, info, whitelist, answers) matches StepView::Done(
            Ok((after, _)),
        ) ==> state.sg721_address is Some ==> {
            &&& query_outcome(after, QueryMsg::Config {  }, answers) matches StepView::Done(
                Ok(QueryResponseView::Config(read)),
            )
            &&& read.whitelist == Some(answers.address->0->Ok_0@)
        },
{
}

/// After a mint, the count that is read for the sender is one higher, and the
/// number of tokens that are left one lower.
pub proof fn law_reads_count_mints(
    state: StateView,
    env: Env,
    info: MessageInfo,
    msg: ExecuteMsg,
    answers: Answers,
    asked: String,
    later: Answers,
)
    requires
        state.wf(),
        mints(msg),
        succeeds(execute_outcome(state, env, info, msg, answers)),
        later.address matches Some(Ok(address)) && address@ == info.sender@,
    ensures
        ({
            let after = reached(execute_outcome(state, env, info, msg, answers));
            &&& query_outcome(after, QueryMsg::MintCount { address: asked }, later) matches
                StepView::Done(Ok(QueryResponseView::MintCount(read)))
            &&& read.count == state.mint_count(info.sender@) + 1
            &&& query_outcome(after, QueryMsg::MintableNumTokens {  }, later) matches
                StepView::Done(Ok(QueryResponseView::MintableNumTokens { count }))
            &&& count == state.mintable_num_tokens - 1
        }),
{
    law_mint_takes_one_token(state, env, info, msg, answers);
}

/// Whether a question has been answered.
pub open spec fn answered(question: QuestionView, answers: Answers) -> bool {
    match question {
        QuestionView::ValidateAddress { .. } => answers.address is Some,
        QuestionView::Balance { .. } => answers.balance is Some,
        QuestionView::WhitelistConfig { .. } => answers.whitelist_config is Some,
        QuestionView::HasMember { .. } => answers.has_member is Some,
        QuestionView::WhitelistPrice { .. } => answers.whitelist_price is Some,
    }
}

/// No call asks what has been answered, so each comes to its end after at most one
/// answer of each kind.
pub proof fn law_nothing_is_asked_twice(
    state: StateView,
    env: Env,
    info: MessageInfo,
    answers: Answers,
    msg: ExecuteMsg,
    query: QueryMsg,
    setup: InstantiateMsg,
    scheme: Result<Seq<char>, Seq<char>>,
    order: Seq<u32>,
)
    ensures
        execute_outcome(state, env, info, msg, answers) matches StepView::Ask(question)
            ==> !answered(question, answers),
        query_outcome(state, query, answers) matches StepView::Ask(question) ==> !answered(
            question,
            answers,
        ),
        instantiate_outcome(env, info, setup, answers, scheme, order) matches StepView::Ask(
            question,
        ) ==> !answered(question, answers),
{
}

/// A sale is set up exactly if nothing is wrong with its terms, and a whitelist that
/// is no address does not keep it from being set up.
pub proof fn law_setup(
    env: Env,
    info: MessageInfo,
    msg: InstantiateMsg,
    answers: Answers,
    scheme: Result<Seq<char>, Seq<char>>,
    order: Seq<u32>,
)
    requires
        msg.whitelist is Some ==> answers.address is Some,
    ensures
        succeeds(instantiate_outcome(env, info, msg, answers, scheme, order))
            <==> setup_error(env, msg, scheme) is None,
        succeeds(instantiate_outcome(env, info, msg, answers, scheme, order)) ==> {
            let state = reached(instantiate_outcome(env, info, msg, answers, scheme, order));
            &&& state.config.admin == info.sender@
            &&& state.mintable_num_tokens == msg.num_tokens
            &&& state.config.whitelist is Some <==> msg.whitelist is Some && answers.address->0
                is Ok
        },
{
}

/// Once the token contract is made, what was set up is what is read.
pub proof fn law_setup_is_read_back(
    env: Env,
    info: MessageInfo,
    msg: InstantiateMsg,
    answers: Answers,
    scheme: Result<Seq<char>, Seq<char>>,
    order: Seq<u32>,
    address: Seq<char>,
    later: Answers,
)
    requires
        succeeds(instantiate_outcome(env, info, msg, answers, scheme, order)),
    ensures
        ({
            let first = reached(instantiate_outcome(env, info, msg, answers, scheme, order));
            let made = reply_outcome(first, Some(address))->Ok_0.0;
            &&& reply_outcome(first, Some(address)) is Ok
            &&& query_outcome(first, QueryMsg::Config {  }, later) matches StepView::Done(Err(_))
            &&& query_outcome(made, QueryMsg::Config {  }, later) matches StepView::Done(
                Ok(QueryResponseView::Config(read)),
            )
            &&& read.admin == info.sender@
            &&& read.base_token_uri == msg.base_token_uri@
            &&& read.num_tokens == msg.num_tokens
            &&& read.per_address_limit == msg.per_address_limit
            &&& read.sg721_address == address
            &&& read.sg721_code_id == msg.sg721_code_id
            &&& read.start_time == msg.start_time
            &&& read.unit_price == msg.unit_price.deep_view()
            &&& read.whitelist == match (msg.whitelist, answers.address) {
                (Some(_), Some(Ok(whitelist))) => Some(whitelist@),
                _ => None,
            }
            &&& query_outcome(made, QueryMsg::MintableNumTokens {  }, later) matches StepView::Done(
                Ok(QueryResponseView::MintableNumTokens { count }),
            )
            &&& count == msg.num_tokens
        }),
{
}

/// Distinct tokens are described in distinct places.
pub proof fn law_token_uris_differ(base: Seq<char>, a: u32, b: u32)
    requires
        token_uri(base, a) == token_uri(base, b),
    ensures
        a == b,
{
    let x = decimal(a as nat);
    let y = decimal(b as nat);
    let prefix = base + "/"@;
    assert(token_uri(base, a) == prefix + x);
    assert(token_uri(base, b) == prefix + y);
    assert((prefix + x).skip(prefix.len() as int) =~= x);
    assert((prefix + y).skip(prefix.len() as int) =~= y);
    lemma_decimal_injective(a as nat, b as nat);
}

} // verus!
