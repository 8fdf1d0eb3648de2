//! What the messages other than mints do, said of what goes in and what comes out.

use crate::chain::{
    Answers, CoinView, CosmosMsgView, Env, MessageInfo, QuestionView, Response, ResponseView, Step,
    StepView, SubMsgView,
};
use crate::contract::execute_outcome;
use crate::error::{ContractError, ContractErrorView, FeeErrorView, PaymentErrorView};
use crate::fees::fee_taken;
use crate::laws::minting::{refused, sent};
use crate::msg::ExecuteMsg;
use crate::outcome::{carried_out, performed, Outcome};
use crate::outside::{fisher_yates, permutes, rearranged, seconds_text, sha256};
use crate::state::{places, ConfigView, StateView, TokenPositionMapping};
use crate::text::decimal;
use crate::tokens::{lemma_rearranged, lemma_shuffled, shuffled};
use vstd::prelude::*;
use vstd::utf8::encode_utf8;

verus! {

/// A success that leaves a state, a log and messages.
pub open spec fn done(
    after: StateView,
    attributes: Seq<(Seq<char>, Seq<char>)>,
    messages: Seq<SubMsgView>,
) -> Outcome {
    StepView::Done(Ok((after, ResponseView { attributes, messages })))
}

/// A withdrawal sends the whole of what the contract holds to the admin, and only to
/// the admin; nothing changes.
pub proof fn law_withdrawal(state: StateView, env: Env, info: MessageInfo, answers: Answers)
    ensures
        ({
            let out = execute_outcome(state, env, info, ExecuteMsg::Withdraw {  }, answers);
            let admitted = info.sender@ == state.config.admin;
            let known = answers.balance is Some && answers.balance->0 is Ok;
            let held = answers.balance->0->Ok_0;
            &&& !admitted ==> out == refused(
                ContractErrorView::Unauthorized("Sender is not an admin"@),
            )
            &&& admitted && answers.balance is None ==> out == Outcome::Ask(
                QuestionView::Balance { address: env.contract@, denom: "ustars"@ },
            )
            &&& admitted && answers.balance is Some && answers.balance->0 is Err ==> out
                == refused(ContractErrorView::Std(answers.balance->0->Err_0.deep_view()))
            &&& admitted && known && held.amount == 0 ==> out == refused(
                ContractErrorView::ZeroBalance {  },
            )
            &&& admitted && known && held.amount > 0 ==> out == done(
                state,
                seq![("action"@, "withdraw"@)],
                seq![
                    sent(
                        CosmosMsgView::Send {
                            to_address: info.sender@,
                            amount: seq![CoinView { denom: held.denom@, amount: held.amount }],
                        },
                    ),
                ],
            )
        }),
{
    let held = answers.balance->0->Ok_0;
    if let StepView::Done(Ok((after, told))) = execute_outcome(
        state,
        env,
        info,
        ExecuteMsg::Withdraw {  },
        answers,
    ) {
        assert(told.attributes =~= seq![("action"@, "withdraw"@)]);
        assert(told.messages =~= seq![
            sent(
                CosmosMsgView::Send {
                    to_address: info.sender@,
                    amount: seq![CoinView { denom: held.denom@, amount: held.amount }],
                },
            ),
        ]);
    }
}

/// The admin sets the whitelist before the start, unless one that is set is active;
/// nothing else changes. The log holds the text that was given, the sale the address
/// that it stands for.
pub proof fn law_setting_a_whitelist(
    state: StateView,
    env: Env,
    info: MessageInfo,
    whitelist: String,
    answers: Answers,
)
    ensures
        ({
            let out = execute_outcome(
                state,
                env,
                info,
                ExecuteMsg::SetWhitelist { whitelist },
                answers,
            );
            let early = info.sender@ == state.config.admin && env.time < state.config.start_time;
            let asked = early && state.config.whitelist is Some;
            let free = early && (state.config.whitelist is None || answers.whitelist_config is Some
                && answers.whitelist_config->0 is Ok
                && !answers.whitelist_config->0->Ok_0.is_active);
            &&& info.sender@ != state.config.admin ==> out == refused(
                ContractErrorView::Unauthorized("Sender is not an admin"@),
            )
            &&& info.sender@ == state.config.admin && env.time >= state.config.start_time ==> out
                == refused(ContractErrorView::AlreadyStarted {  })
            &&& asked && answers.whitelist_config is None ==> out == Outcome::Ask(
                QuestionView::WhitelistConfig { whitelist: state.config.whitelist->0 },
            )
            &&& asked && answers.whitelist_config is Some && answers.whitelist_config->0 is Err
                ==> out == refused(
                ContractErrorView::Std(answers.whitelist_config->0->Err_0.deep_view()),
            )
            &&& asked && answers.whitelist_config is Some && answers.whitelist_config->0 is Ok
                && answers.whitelist_config->0->Ok_0.is_active ==> out == refused(
                ContractErrorView::WhitelistAlreadyStarted {  },
            )
            &&& free && answers.address is None ==> out == Outcome::Ask(
                QuestionView::ValidateAddress { input: whitelist@ },
            )
            &&& free && answers.address is Some && answers.address->0 is Err ==> out == refused(
                ContractErrorView::Std(answers.address->0->Err_0.deep_view()),
            )
            &&& free && answers.address is Some && answers.address->0 is Ok ==> out == done(
                StateView {
                    config: ConfigView {
                        whitelist: Some(answers.address->0->Ok_0@),
                        ..state.config
                    },
                    ..state
                },
                seq![("action"@, "set_whitelist"@), ("whitelist"@, whitelist@)],
                Seq::empty(),
            )
        }),
{
    if let StepView::Done(Ok((after, told))) = execute_outcome(
        state,
        env,
        info,
        ExecuteMsg::SetWhitelist { whitelist },
        answers,
    ) {
        assert(told.attributes =~= seq![
            ("action"@, "set_whitelist"@),
            ("whitelist"@, whitelist@),
        ]);
    }
}

/// The admin changes the start time before the start, to one that is neither past nor
/// before the genesis; nothing else changes.
pub proof fn law_changing_the_start(
    state: StateView,
    env: Env,
    info: MessageInfo,
    start_time: u64,
    answers: Answers,
)
    ensures
        ({
            let out = execute_outcome(
                state,
                env,
                info,
                ExecuteMsg::UpdateStartTime(start_time),
                answers,
            );
            let early = info.sender@ == state.config.admin && env.time < state.config.start_time;
            &&& info.sender@ != state.config.admin ==> out == refused(
                ContractErrorView::Unauthorized("Sender is not an admin"@),
            )
            &&& info.sender@ == state.config.admin && env.time >= state.config.start_time ==> out
                == refused(ContractErrorView::AlreadyStarted {  })
            &&& early && start_time < env.time ==> out == refused(
                ContractErrorView::InvalidStartTime(start_time, env.time),
            )
            &&& early && start_time >= env.time && start_time < 1_647_032_400_000_000_000 ==> out
                == refused(ContractErrorView::BeforeGenesisTime {  })
            &&& early && start_time >= env.time && start_time >= 1_647_032_400_000_000_000 ==> out
                == done(
                StateView { config: ConfigView { start_time, ..state.config }, ..state },
                seq![
                    ("action"@, "update_start_time"@),
                    ("sender"@, info.sender@),
                    ("start_time"@, seconds_text(start_time)),
                ],
                Seq::empty(),
            )
        }),
{
    if let StepView::Done(Ok((after, told))) = execute_outcome(
        state,
        env,
        info,
        ExecuteMsg::UpdateStartTime(start_time),
        answers,
    ) {
        assert(told.attributes =~= seq![
            ("action"@, "update_start_time"@),
            ("sender"@, info.sender@),
            ("start_time"@, seconds_text(start_time)),
        ]);
    }
}

/// The admin changes the limit per address at any time, to one from one to fifty;
/// nothing else changes.
pub proof fn law_changing_the_limit(
    state: StateView,
    env: Env,
    info: MessageInfo,
    limit: u32,
    answers: Answers,
)
    ensures
        ({
            let out = execute_outcome(
                state,
                env,
                info,
                ExecuteMsg::UpdatePerAddressLimit { per_address_limit: limit },
                answers,
            );
            let admitted = info.sender@ == state.config.admin;
            &&& !admitted ==> out == refused(
                ContractErrorView::Unauthorized("Sender is not an admin"@),
            )
            &&& admitted && !(1 <= limit <= 50) ==> out == refused(
                ContractErrorView::InvalidPerAddressLimit { max: 50, min: 1, got: limit },
            )
            &&& admitted && 1 <= limit <= 50 ==> out == done(
                StateView {
                    config: ConfigView { per_address_limit: limit, ..state.config },
                    ..state
                },
                seq![
                    ("action"@, "update_per_address_limit"@),
                    ("sender"@, info.sender@),
                    ("limit"@, decimal(limit as nat)),
                ],
                Seq::empty(),
            )
        }),
{
    if let StepView::Done(Ok((after, told))) = execute_outcome(
        state,
        env,
        info,
        ExecuteMsg::UpdatePerAddressLimit { per_address_limit: limit },
        answers,
    ) {
        assert(told.attributes =~= seq![
            ("action"@, "update_per_address_limit"@),
            ("sender"@, info.sender@),
            ("limit"@, decimal(limit as nat)),
        ]);
    }
}

/// A fee is taken exactly from one coin of ustars that covers it and holds something:
/// half of it, rounded down, is burned, and the rest goes to the community pool. Other
/// funds are refused, with what is wrong with them.
pub proof fn law_taking_a_fee(funds: Seq<CoinView>, fee: u128)
    ensures
        ({
            let out = fee_taken(funds, fee);
            let one = funds.len() == 1 && funds[0].amount > 0;
            let ustars = one && funds[0].denom == "ustars"@;
            let half: u128 = fee / 2;
            &&& funds.len() == 0 || (funds.len() == 1 && funds[0].amount == 0) ==> out == Err::<
                Seq<CosmosMsgView>,
                FeeErrorView,
            >(FeeErrorView::Payment(PaymentErrorView::NoFunds {  }))
            &&& funds.len() >= 2 ==> out == Err::<Seq<CosmosMsgView>, FeeErrorView>(
                FeeErrorView::Payment(PaymentErrorView::MultipleDenoms {  }),
            )
            &&& one && !ustars ==> out == Err::<Seq<CosmosMsgView>, FeeErrorView>(
                FeeErrorView::Payment(PaymentErrorView::MissingDenom("ustars"@)),
            )
            &&& ustars && funds[0].amount < fee ==> out == Err::<Seq<CosmosMsgView>, FeeErrorView>(
                FeeErrorView::InsufficientFee(fee, funds[0].amount),
            )
            &&& ustars && funds[0].amount >= fee ==> out == Ok::<Seq<CosmosMsgView>, FeeErrorView>(
                seq![
                    CosmosMsgView::Burn {
                        amount: seq![CoinView { denom: "ustars"@, amount: half }],
                    },
                    CosmosMsgView::FundCommunityPool {
                        amount: seq![CoinView { denom: "ustars"@, amount: (fee - half) as u128 }],
                    },
                ],
            )
        }),
{
}

/// Two tables hold the same positions and tokens but for two entries, whose tokens
/// are exchanged.
pub open spec fn exchange(
    before: Seq<TokenPositionMapping>,
    after: Seq<TokenPositionMapping>,
    i: int,
    j: int,
) -> bool {
    &&& after.len() == before.len()
    &&& 0 <= i < before.len()
    &&& 0 <= j < before.len()
    &&& after[i].token_id == before[j].token_id
    &&& after[j].token_id == before[i].token_id
    &&& forall|m: int|
        0 <= m < before.len() ==> (#[trigger] after[m]).position == before[m].position
    &&& forall|m: int|
        0 <= m < before.len() && m != i && m != j ==> #[trigger] after[m] == before[m]
}

/// The entry at a place has exchanged its token with the entry at a position.
pub open spec fn exchange_at(
    before: Seq<TokenPositionMapping>,
    after: Seq<TokenPositionMapping>,
    i: int,
    position: u32,
) -> bool {
    exists|j: int|
        0 <= j < before.len() && (#[trigger] before[j]).position == position && exchange(
            before,
            after,
            i,
            j,
        )
}

/// A shuffle of a whole table takes one step for each of its entries.
pub proof fn law_shuffle_takes_every_step(
    table: Seq<TokenPositionMapping>,
    order: Seq<u32>,
) -> (tables: Seq<Seq<TokenPositionMapping>>)
    requires
        order.to_multiset() == places(table).to_multiset(),
    ensures
        tables.len() == table.len() + 1,
        tables[0] == table,
        tables.last() == shuffled(table, order, order.len()),
        order.len() == table.len(),
        forall|k: int|
            0 <= k < order.len() ==> exchange_at(#[trigger] tables[k], tables[k + 1], k, order[k]),
{
    lemma_shuffled(table, order, order.len());
    let tables = Seq::new(order.len() + 1, |k: int| shuffled(table, order, k as nat));
    assert forall|k: int| 0 <= k < order.len() implies exchange_at(
        #[trigger] tables[k],
        tables[k + 1],
        k,
        order[k],
    ) by {
        let j = places(table).index_of(order[k]);
        lemma_shuffled(table, order, k as nat);
        lemma_shuffled(table, order, (k + 1) as nat);
        let before = shuffled(table, order, k as nat);
        let after = shuffled(table, order, (k + 1) as nat);
        assert(places(table).contains(order[k]));
        assert forall|m: int| 0 <= m < before.len() implies (#[trigger] after[m]).position
            == before[m].position by {
            assert(places(after)[m] == after[m].position);
            assert(places(before)[m] == before[m].position);
        }
        assert(places(before)[j] == before[j].position);
        assert(before[j].position == order[k]);
        assert(exchange(before, after, k, j));
    }
    tables
}

/// Anyone who sends exactly five hundred million ustars, in one coin, shuffles what is
/// left, and nobody else does; of the fee one half is burned and one half goes to the
/// community pool. One after another every position that is left exchanges its token
/// with the position that chance gives in its place, where chance rearranges the
/// positions by the digest of the height of the block and their number; nothing else
/// changes. (That the drawn order holds each index once, `execute_shuffle` says of
/// every shuffle it has made.)
pub proof fn law_shuffling(
    state: StateView,
    env: Env,
    info: MessageInfo,
    answers: Answers,
    drawn: Seq<int>,
) -> (tables: Seq<Seq<TokenPositionMapping>>)
    requires
        drawn == fisher_yates(
            state.positions.len(),
            sha256(
                encode_utf8(decimal(env.height as nat) + decimal(state.positions.len())),
            ).subrange(0, 16),
            usize::BITS,
        ),
        permutes(drawn, state.positions.len()),
    ensures
        tables.len() == state.positions.len() + 1,
        tables[0] == state.positions,
        forall|k: int|
            0 <= k < state.positions.len() ==> exchange_at(
                #[trigger] tables[k],
                tables[k + 1],
                k,
                state.positions[drawn[k]].position,
            ),
        ({
            let out = execute_outcome(state, env, info, ExecuteMsg::Shuffle {  }, answers);
            let funds = info.funds.deep_view();
            let one = funds.len() == 1 && funds[0].amount > 0;
            let ustars = one && funds[0].denom == "ustars"@;
            let paid = ustars && funds[0].amount == 500_000_000;
            &&& funds.len() == 0 || (funds.len() == 1 && funds[0].amount == 0) ==> out == refused(
                ContractErrorView::Fee(FeeErrorView::Payment(PaymentErrorView::NoFunds {  })),
            )
            &&& funds.len() >= 2 ==> out == refused(
                ContractErrorView::Fee(
                    FeeErrorView::Payment(PaymentErrorView::MultipleDenoms {  }),
                ),
            )
            &&& one && !ustars ==> out == refused(
                ContractErrorView::Fee(
                    FeeErrorView::Payment(PaymentErrorView::MissingDenom("ustars"@)),
                ),
            )
            &&& ustars && funds[0].amount < 500_000_000 ==> out == refused(
                ContractErrorView::Fee(
                    FeeErrorView::InsufficientFee(500_000_000, funds[0].amount),
                ),
            )
            &&& ustars && funds[0].amount > 500_000_000 ==> out == refused(
                ContractErrorView::IncorrectPaymentAmount(
                    funds[0],
                    CoinView { denom: "ustars"@, amount: 500_000_000 },
                ),
            )
            &&& paid && state.mintable_num_tokens == 0 ==> out == refused(
                ContractErrorView::SoldOut {  },
            )
            &&& paid && state.mintable_num_tokens > 0 ==> out == done(
                StateView { positions: tables.last(), ..state },
                seq![("action"@, "shuffle"@), ("sender"@, info.sender@)],
                seq![
                    sent(
                        CosmosMsgView::Burn {
                            amount: seq![CoinView { denom: "ustars"@, amount: 250_000_000 }],
                        },
                    ),
                    sent(
                        CosmosMsgView::FundCommunityPool {
                            amount: seq![CoinView { denom: "ustars"@, amount: 250_000_000 }],
                        },
                    ),
                ],
            )
        }),
{
    let list = places(state.positions);
    let order = rearranged(list, drawn);
    assert(list.len() == state.positions.len());
    lemma_rearranged(list, drawn);
    let tables = law_shuffle_takes_every_step(state.positions, order);
    assert forall|k: int| 0 <= k < state.positions.len() implies exchange_at(
        #[trigger] tables[k],
        tables[k + 1],
        k,
        state.positions[drawn[k]].position,
    ) by {
        assert(order[k] == list[drawn[k]]);
        assert(list[drawn[k]] == state.positions[drawn[k]].position);
        assert(exchange_at(tables[k], tables[k + 1], k, order[k]));
    }
    if let StepView::Done(Ok((after, told))) = execute_outcome(
        state,
        env,
        info,
        ExecuteMsg::Shuffle {  },
        answers,
    ) {
        assert(told.attributes =~= seq![("action"@, "shuffle"@), ("sender"@, info.sender@)]);
        assert(told.messages =~= seq![
            sent(
                CosmosMsgView::Burn {
                    amount: seq![CoinView { denom: "ustars"@, amount: 250_000_000 }],
                },
            ),
            sent(
                CosmosMsgView::FundCommunityPool {
                    amount: seq![CoinView { denom: "ustars"@, amount: 250_000_000 }],
                },
            ),
        ]);
    }
    tables
}

/// What it means that a call went as its outcome says: a question is handed on, an
/// error is returned, and both leave the state as it was; a success returns its
/// response and leaves its state.
pub proof fn law_calls_go_as_their_outcome_says(
    outcome: Outcome,
    before: StateView,
    after: StateView,
    step: Step<Response, ContractError>,
)
    ensures
        performed(outcome, before, after, step) ==> {
            &&& outcome is Ask <==> step is Ask
            &&& outcome is Ask ==> step->Ask_0.deep_view() == outcome->Ask_0 && after == before
            &&& outcome is Done ==> carried_out(outcome->Done_0, before, after, step->Done_0)
        },
        outcome is Done && step is Done && carried_out(outcome->Done_0, before, after, step->Done_0)
            ==> {
            &&& outcome->Done_0 is Ok <==> step->Done_0 is Ok
            &&& outcome->Done_0 is Err ==> after == before && step->Done_0->Err_0.deep_view()
                == outcome->Done_0->Err_0
            &&& outcome->Done_0 is Ok ==> after == (outcome->Done_0->Ok_0).0
                && step->Done_0->Ok_0.deep_view() == (outcome->Done_0->Ok_0).1
        },
{
}

} // verus!
