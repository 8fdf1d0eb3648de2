//! A sale over many messages.

use crate::chain::{Answers, Env, MessageInfo, StepView};
use crate::contract::execute_outcome;
use crate::error::ContractErrorView;
use crate::laws::{law_mint_takes_one_token, mints, succeeds, taken};
use crate::mint::{admin_mint_checked, chosen, kept_from_minting, lemma_mint_wf};
use crate::msg::ExecuteMsg;
use crate::outcome::Outcome;
use crate::outside::permutes;
use crate::state::{places, token_ids, StateView};
use crate::tokens::{
    index_order, lemma_range_filled, lemma_rearranged, lemma_same_places, lemma_shuffled,
    random_order,
};
use crate::upheld::{
    lemma_ids_left, lemma_mint_inv, lemma_mint_table_inv, lemma_reordered_inv, lemma_same_ids,
    lemma_token_removed, table_inv, total,
};
use vstd::prelude::*;

verus! {

/// A message with all that decides how it goes.
pub struct Call {
    pub env: Env,
    pub info: MessageInfo,
    pub msg: ExecuteMsg,
    pub answers: Answers,
}

impl Call {
    /// How the call goes on a state.
    pub open spec fn outcome(self, state: StateView) -> Outcome {
        execute_outcome(state, self.env, self.info, self.msg, self.answers)
    }

    /// Whether the call mints a token.
    pub open spec fn has_minted(self, state: StateView) -> bool {
        mints(self.msg) && succeeds(self.outcome(state))
    }

    /// The token that the call mints, if it does.
    pub open spec fn minted(self, state: StateView) -> u32
        recommends
            self.has_minted(state),
    {
        state.positions[taken(state, self.env, self.info, self.msg)->Ok_0].token_id
    }

    /// Whether nothing about the sender or the recipient keeps the call from
    /// minting.
    pub open spec fn may_mint(self, state: StateView) -> bool {
        match self.msg {
            ExecuteMsg::Mint {  } => kept_from_minting(state, self.env, self.info, self.answers)
                is None,
            ExecuteMsg::MintTo { recipient } => admin_mint_checked(
                state,
                self.info,
                recipient@,
                self.answers,
            ) matches StepView::Done(Ok(_)),
            ExecuteMsg::MintFor { recipient, .. } => admin_mint_checked(
                state,
                self.info,
                recipient@,
                self.answers,
            ) matches StepView::Done(Ok(_)),
            _ => false,
        }
    }
}

/// The state that a call leaves: the new one if it succeeds, and else the one
/// before.
pub open spec fn left_by(state: StateView, outcome: Outcome) -> StateView {
    match outcome {
        StepView::Done(Ok((after, _))) => after,
        _ => state,
    }
}

/// A call has led from one state to another. The order in which a shuffle puts the
/// positions holds each of them once.
pub open spec fn went(before: StateView, call: Call, after: StateView) -> bool {
    &&& after == left_by(before, call.outcome(before))
    &&& call.msg is Shuffle && succeeds(call.outcome(before)) ==> permutes(
        index_order(call.env.height, before.positions.len()),
        before.positions.len(),
    )
}

/// How one state of a sale follows on another, at once or after any number of
/// messages: tokens only leave, counts only rise, and the terms that no message
/// changes are the same.
pub open spec fn onward(before: StateView, after: StateView) -> bool {
    &&& after.mintable_num_tokens <= before.mintable_num_tokens
    &&& forall|t: u32| #[trigger]
        token_ids(after.positions).contains(t) ==> token_ids(before.positions).contains(t)
    &&& forall|a: Seq<char>| before.mint_count(a) <= #[trigger] after.mint_count(a)
    &&& after.config.admin == before.config.admin
    &&& after.config.base_token_uri == before.config.base_token_uri
    &&& after.config.num_tokens == before.config.num_tokens
    &&& after.config.sg721_code_id == before.config.sg721_code_id
    &&& after.config.unit_price == before.config.unit_price
    &&& after.sg721_address == before.sg721_address
}

/// One for a call that mints for the count of an address, and else nothing.
pub open spec fn counted(state: StateView, call: Call, address: Seq<char>) -> nat {
    if call.has_minted(state) && call.info.sender@ == address {
        1
    } else {
        0
    }
}

/// A shuffle that succeeds moves no position, and the tokens stay the same.
proof fn lemma_shuffle_went(before: StateView, call: Call, after: StateView)
    requires
        before.wf(),
        went(before, call, after),
        call.msg is Shuffle,
        succeeds(call.outcome(before)),
    ensures
        after == (StateView { positions: after.positions, ..before }),
        places(after.positions) == places(before.positions),
        token_ids(after.positions).to_multiset() == token_ids(before.positions).to_multiset(),
        after.wf(),
{
    let list = places(before.positions);
    let order = random_order(call.env.height, list);
    assert(list.len() == before.positions.len());
    lemma_rearranged(list, index_order(call.env.height, list.len()));
    lemma_shuffled(before.positions, order, order.len());
    lemma_same_places(before.positions, after.positions);
}

/// What one message does to a sale. It keeps what every message relies on, the
/// invariant of the table whatever the counts are, and the whole invariant. It
/// takes one token if it mints, and none otherwise; and a mint counts for its sender
/// alone.
pub proof fn law_message_goes_onward(before: StateView, call: Call, after: StateView)
    requires
        before.wf(),
        went(before, call, after),
    ensures
        after.wf(),
        onward(before, after),
        table_inv(before.positions, before.config.num_tokens) ==> table_inv(
            after.positions,
            after.config.num_tokens,
        ),
        before.inv() ==> after.inv(),
        forall|a: Seq<char>| #[trigger]
            after.mint_count(a) == before.mint_count(a) + counted(before, call, a),
        call.has_minted(before) ==> {
            let id = call.minted(before);
            &&& after.mintable_num_tokens == before.mintable_num_tokens - 1
            &&& token_ids(before.positions).contains(id)
            &&& table_inv(before.positions, before.config.num_tokens) ==> {
                &&& 1 <= id <= before.config.num_tokens
                &&& forall|t: u32| #[trigger]
                    token_ids(after.positions).contains(t) <==> token_ids(
                        before.positions,
                    ).contains(t) && t != id
            }
        },
        !call.has_minted(before) ==> {
            &&& after.mintable_num_tokens == before.mintable_num_tokens
            &&& after.minters == before.minters
            &&& forall|t: u32| #[trigger]
                token_ids(after.positions).contains(t) <==> token_ids(before.positions).contains(t)
        },
{
    let num_tokens = before.config.num_tokens;
    if call.has_minted(before) {
        law_mint_takes_one_token(before, call.env, call.info, call.msg, call.answers);
        let at = taken(before, call.env, call.info, call.msg)->Ok_0;
        lemma_mint_wf(before, call.info.sender@, at);
        lemma_ids_left(before.positions, at);
        if table_inv(before.positions, num_tokens) {
            lemma_mint_table_inv(before.positions, at, num_tokens);
            lemma_token_removed(before.positions, at);
        }
        if before.inv() {
            lemma_mint_inv(before, call.info.sender@, at);
        }
    } else if call.msg is Shuffle && succeeds(call.outcome(before)) {
        lemma_shuffle_went(before, call, after);
        lemma_same_ids(before.positions, after.positions);
        if table_inv(before.positions, num_tokens) {
            lemma_reordered_inv(before.positions, after.positions, num_tokens);
        }
    } else {
        assert(after.positions == before.positions);
        assert(after.minters == before.minters);
    }
}

/// What follows on a state follows on every state that this one follows on.
pub proof fn law_onward_is_transitive(a: StateView, b: StateView, c: StateView)
    requires
        onward(a, b),
        onward(b, c),
    ensures
        onward(a, c),
{
    assert forall|t: u32| #[trigger] token_ids(c.positions).contains(t) implies token_ids(
        a.positions,
    ).contains(t) by {
        assert(token_ids(b.positions).contains(t));
    }
    assert forall|x: Seq<char>| a.mint_count(x) <= #[trigger] c.mint_count(x) by {
        assert(b.mint_count(x) <= c.mint_count(x));
    }
}

/// The states of a sale, and the calls that led from each to the next, whether they
/// succeeded or not.
pub open spec fn history(states: Seq<StateView>, calls: Seq<Call>) -> bool {
    &&& states.len() == calls.len() + 1
    &&& states[0].wf()
    &&& forall|i: int|
        0 <= i < calls.len() ==> went(states[i], #[trigger] calls[i], states[i + 1])
}

/// However many messages a sale takes, it goes onward, and keeps its invariants.
pub proof fn law_sale_goes_onward(states: Seq<StateView>, calls: Seq<Call>, i: int, j: int)
    requires
        history(states, calls),
        0 <= i <= j <= calls.len(),
    ensures
        states[i].wf(),
        states[j].wf(),
        onward(states[i], states[j]),
        table_inv(states[i].positions, states[i].config.num_tokens) ==> table_inv(
            states[j].positions,
            states[j].config.num_tokens,
        ),
        states[i].inv() ==> states[j].inv(),
    decreases j,
{
    if i < j {
        law_sale_goes_onward(states, calls, i, j - 1);
        assert(went(states[j - 1], calls[j - 1], states[j]));
        law_message_goes_onward(states[j - 1], calls[j - 1], states[j]);
        law_onward_is_transitive(states[i], states[j - 1], states[j]);
    } else if j > 0 {
        law_sale_goes_onward(states, calls, j - 1, j - 1);
        assert(went(states[j - 1], calls[j - 1], states[j]));
        law_message_goes_onward(states[j - 1], calls[j - 1], states[j]);
    }
}

/// A token that has been minted is in no later table.
proof fn lemma_minted_is_gone(states: Seq<StateView>, calls: Seq<Call>, i: int, j: int)
    requires
        history(states, calls),
        table_inv(states[0].positions, states[0].config.num_tokens),
        0 <= i < j <= calls.len(),
        calls[i].has_minted(states[i]),
    ensures
        1 <= calls[i].minted(states[i]) <= states[0].config.num_tokens,
        !token_ids(states[j].positions).contains(calls[i].minted(states[i])),
{
    law_sale_goes_onward(states, calls, 0, i);
    assert(went(states[i], calls[i], states[i + 1]));
    law_message_goes_onward(states[i], calls[i], states[i + 1]);
    law_sale_goes_onward(states, calls, i + 1, j);
}

/// No two mints of a sale give the same token, and each gives one of the numbers
/// from one to the number of tokens.
pub proof fn law_no_token_is_minted_twice(
    states: Seq<StateView>,
    calls: Seq<Call>,
    i: int,
    j: int,
)
    requires
        history(states, calls),
        table_inv(states[0].positions, states[0].config.num_tokens),
        0 <= i < j < calls.len(),
        calls[i].has_minted(states[i]),
        calls[j].has_minted(states[j]),
    ensures
        calls[i].minted(states[i]) != calls[j].minted(states[j]),
        1 <= calls[i].minted(states[i]) <= states[0].config.num_tokens,
        1 <= calls[j].minted(states[j]) <= states[0].config.num_tokens,
{
    lemma_minted_is_gone(states, calls, i, j);
    lemma_minted_is_gone(states, calls, j, j + 1);
    law_sale_goes_onward(states, calls, 0, j);
    assert(went(states[j], calls[j], states[j + 1]));
    law_message_goes_onward(states[j], calls[j], states[j + 1]);
}

/// A token that has been minted stays sold: whenever it is asked for later, nothing
/// is minted, and whoever gets as far as the choice of a token is told so.
pub proof fn law_sold_token_stays_refused(
    states: Seq<StateView>,
    calls: Seq<Call>,
    i: int,
    j: int,
    later: Call,
    r: u32,
)
    requires
        history(states, calls),
        table_inv(states[0].positions, states[0].config.num_tokens),
        0 <= i < j <= calls.len(),
        calls[i].has_minted(states[i]),
        later.msg matches ExecuteMsg::MintFor { token_id, .. } && token_id == calls[i].minted(
            states[i],
        ),
    ensures
        !succeeds(later.outcome(states[j])),
        chosen(states[j], Some(calls[i].minted(states[i])), r) == Err::<int, ContractErrorView>(
            ContractErrorView::TokenIdAlreadySold { token_id: calls[i].minted(states[i]) },
        ),
{
    lemma_minted_is_gone(states, calls, i, j);
    law_sale_goes_onward(states, calls, 0, j);
    token_ids(states[j].positions).index_of_first_ensures(calls[i].minted(states[i]));
}

/// How many of the first `n` calls have minted.
pub open spec fn mints_made(states: Seq<StateView>, calls: Seq<Call>, n: nat) -> nat
    decreases n,
{
    if n == 0 {
        0
    } else {
        mints_made(states, calls, (n - 1) as nat) + if calls[n - 1].has_minted(states[n - 1]) {
            1nat
        } else {
            0
        }
    }
}

/// How many of the first `n` calls have minted for the count of an address.
pub open spec fn mints_counted(
    states: Seq<StateView>,
    calls: Seq<Call>,
    address: Seq<char>,
    n: nat,
) -> nat
    decreases n,
{
    if n == 0 {
        0
    } else {
        mints_counted(states, calls, address, (n - 1) as nat) + counted(
            states[n - 1],
            calls[n - 1],
            address,
        )
    }
}

/// The number of tokens that are left falls by one with each mint, and the count of
/// an address rises by one with each mint that it makes; neither changes otherwise.
pub proof fn law_mints_are_counted(
    states: Seq<StateView>,
    calls: Seq<Call>,
    address: Seq<char>,
    n: nat,
)
    requires
        history(states, calls),
        n <= calls.len(),
    ensures
        states[n as int].mintable_num_tokens + mints_made(states, calls, n)
            == states[0].mintable_num_tokens,
        states[n as int].mint_count(address) == states[0].mint_count(address) + mints_counted(
            states,
            calls,
            address,
            n,
        ),
    decreases n,
{
    if n > 0 {
        law_mints_are_counted(states, calls, address, (n - 1) as nat);
        law_sale_goes_onward(states, calls, 0, n - 1);
        assert(went(states[n - 1], calls[n - 1], states[n as int]));
        law_message_goes_onward(states[n - 1], calls[n - 1], states[n as int]);
        assert(states[n as int].mint_count(address) == states[n - 1].mint_count(address) + counted(
            states[n - 1],
            calls[n - 1],
            address,
        ));
    }
}

/// From its start on, the counts of all addresses and the tokens that are left add
/// up to the number of tokens of the sale.
pub proof fn law_counts_add_up(states: Seq<StateView>, calls: Seq<Call>, n: nat)
    requires
        history(states, calls),
        states[0].fresh(),
        n <= calls.len(),
    ensures
        total(states[n as int].minters) + states[n as int].mintable_num_tokens
            == states[0].config.num_tokens,
        total(states[n as int].minters) == mints_made(states, calls, n),
{
    law_sale_goes_onward(states, calls, 0, n as int);
    law_mints_are_counted(states, calls, Seq::empty(), n);
}

/// A token that was left at the start is still left or has been minted.
proof fn lemma_left_or_minted(states: Seq<StateView>, calls: Seq<Call>, t: u32, n: nat)
    requires
        history(states, calls),
        table_inv(states[0].positions, states[0].config.num_tokens),
        token_ids(states[0].positions).contains(t),
        n <= calls.len(),
    ensures
        token_ids(states[n as int].positions).contains(t) || exists|i: int|
            0 <= i < n && #[trigger] calls[i].has_minted(states[i]) && calls[i].minted(states[i])
                == t,
    decreases n,
{
    if n > 0 {
        lemma_left_or_minted(states, calls, t, (n - 1) as nat);
        law_sale_goes_onward(states, calls, 0, n - 1);
        assert(went(states[n - 1], calls[n - 1], states[n as int]));
        law_message_goes_onward(states[n - 1], calls[n - 1], states[n as int]);
        if token_ids(states[n - 1].positions).contains(t) && !token_ids(
            states[n as int].positions,
        ).contains(t) {
            assert(calls[n - 1].has_minted(states[n - 1]) && calls[n - 1].minted(states[n - 1])
                == t);
        }
    }
}

/// A fresh sale holds every number from one to the number of its tokens.
proof fn lemma_fresh_holds_all(state: StateView, t: u32)
    requires
        state.fresh(),
        1 <= t <= state.config.num_tokens,
    ensures
        token_ids(state.positions).contains(t),
{
    let ids = token_ids(state.positions);
    let list = ids.map_values(|id: u32| id as int);
    assert forall|i: int| 0 <= i < list.len() implies 1 <= #[trigger] list[i] < 1
        + state.config.num_tokens by {
        assert(list[i] == state.positions[i].token_id);
    }
    assert forall|i: int, j: int| 0 <= i < list.len() && 0 <= j < list.len() && i != j implies list[i]
        != list[j] by {
        assert(list[i] == ids[i] && list[j] == ids[j]);
    }
    lemma_range_filled(list, 1, 1 + state.config.num_tokens);
    assert(list.contains(t as int));
    let i = choose|i: int| 0 <= i < list.len() && list[i] == t as int;
    assert(ids[i] == t);
}

/// A whole sale: after as many mints as it has tokens, each of its tokens has been
/// minted, by one call and no other; nothing is left, and whoever may mint is told
/// that it is sold out.
pub proof fn law_whole_sale(
    states: Seq<StateView>,
    calls: Seq<Call>,
    n: nat,
    t: u32,
    later: Call,
)
    requires
        history(states, calls),
        states[0].fresh(),
        n <= calls.len(),
        mints_made(states, calls, n) == states[0].config.num_tokens,
        1 <= t <= states[0].config.num_tokens,
        mints(later.msg),
    ensures
        exists|i: int|
            0 <= i < n && #[trigger] calls[i].has_minted(states[i]) && calls[i].minted(states[i])
                == t,
        forall|i: int, j: int|
            0 <= i < n && 0 <= j < n && #[trigger] calls[i].has_minted(states[i])
                && #[trigger] calls[j].has_minted(states[j]) && calls[i].minted(states[i]) == t
                && calls[j].minted(states[j]) == t ==> i == j,
        states[n as int].mintable_num_tokens == 0,
        !succeeds(later.outcome(states[n as int])),
        later.may_mint(states[n as int]) ==> later.outcome(states[n as int]) == Outcome::Done(
            Err(ContractErrorView::SoldOut {  }),
        ),
{
    lemma_fresh_holds_all(states[0], t);
    lemma_left_or_minted(states, calls, t, n);
    law_mints_are_counted(states, calls, Seq::empty(), n);
    law_sale_goes_onward(states, calls, 0, n as int);
    assert(token_ids(states[n as int].positions).len() == 0);
    assert forall|i: int, j: int|
        0 <= i < n && 0 <= j < n && #[trigger] calls[i].has_minted(states[i])
            && #[trigger] calls[j].has_minted(states[j]) && calls[i].minted(states[i]) == t
            && calls[j].minted(states[j]) == t implies i == j by {
        if i < j {
            law_no_token_is_minted_twice(states, calls, i, j);
        } else if j < i {
            law_no_token_is_minted_twice(states, calls, j, i);
        }
    }
}

} // verus!
