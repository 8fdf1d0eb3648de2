//! What a mint does, said of what goes in and what comes out.

use crate::chain::{
    Answers, CoinView, CosmosMsgView, Env, MessageInfo, QuestionView, ReplyOn, ResponseView,
    StepView, SubMsgView,
};
use crate::contract::{execute_outcome, stuck};
use crate::error::{
    ContractErrorView, FeeErrorView, PaymentErrorView, StdError, StdErrorView,
};
use crate::mint::price;
use crate::msg::ExecuteMsg;
use crate::outcome::Outcome;
use crate::outside::{first_other_denom, mint_json, sha256, xoshiro_first};
use crate::state::{token_ids, StateView};
use crate::text::decimal;
use vstd::prelude::*;
use vstd::utf8::encode_utf8;

verus! {

/// How often an address is on record as having minted.
pub open spec fn count_of(state: StateView, address: Seq<char>) -> int {
    if state.minters.contains_key(address) {
        state.minters[address] as int
    } else {
        0
    }
}

/// A refusal.
pub open spec fn refused(e: ContractErrorView) -> Outcome {
    StepView::Done(Err(e))
}

/// Whether a whitelist is set and said to be active.
pub open spec fn members_only(state: StateView, answers: Answers) -> bool {
    &&& state.config.whitelist is Some
    &&& answers.whitelist_config is Some
    &&& answers.whitelist_config->0 is Ok
    &&& answers.whitelist_config->0->Ok_0.is_active
}

/// Whether anyone may mint: no whitelist is set, or it is said not to be active.
pub open spec fn open_to_all(state: StateView, answers: Answers) -> bool {
    ||| state.config.whitelist is None
    ||| answers.whitelist_config is Some && answers.whitelist_config->0 is Ok
        && !answers.whitelist_config->0->Ok_0.is_active
}

/// Whether a sender may mint: the sale is open to all and has started, or is for
/// members only and the sender is one who is below the limit of the whitelist; and
/// the sender is below the limit of the sale.
pub open spec fn sender_may_mint(
    state: StateView,
    env: Env,
    info: MessageInfo,
    answers: Answers,
) -> bool {
    &&& {
        ||| open_to_all(state, answers) && env.time >= state.config.start_time
        ||| members_only(state, answers) && answers.has_member == Some(Ok::<bool, StdError>(true))
            && count_of(state, info.sender@)
            < answers.whitelist_config->0->Ok_0.per_address_limit
    }
    &&& count_of(state, info.sender@) < state.config.per_address_limit
}

/// Whether the price of a mint is known: no whitelist is set, or it has said its
/// own.
pub open spec fn price_known(state: StateView, answers: Answers) -> bool {
    state.config.whitelist is Some ==> answers.whitelist_price is Some
        && answers.whitelist_price->0 is Ok
}

/// The price of a mint, where it is known: that of the whitelist if it is active.
pub open spec fn price_due(state: StateView, answers: Answers) -> CoinView {
    if state.config.whitelist is Some && answers.whitelist_price->0->Ok_0.is_active {
        CoinView {
            denom: answers.whitelist_price->0->Ok_0.unit_price.denom@,
            amount: answers.whitelist_price->0->Ok_0.unit_price.amount,
        }
    } else {
        state.config.unit_price
    }
}

/// Whether a token can be made at all: one is left, and the token contract is there.
pub open spec fn token_can_be_made(state: StateView) -> bool {
    state.mintable_num_tokens > 0 && state.sg721_address is Some
}

/// The price of a mint is nothing for the admin, and for anyone else that of the
/// whitelist exactly while it is active.
pub proof fn law_price_of_a_mint(state: StateView, answers: Answers)
    ensures
        price(state.config, true, answers) == StepView::<CoinView, StdErrorView>::Done(
            Ok(CoinView { denom: state.config.unit_price.denom, amount: 0 }),
        ),
        price_known(state, answers) ==> price(state.config, false, answers) == StepView::<
            CoinView,
            StdErrorView,
        >::Done(Ok(price_due(state, answers))),
        state.config.whitelist is Some && answers.whitelist_price is None ==> price(
            state.config,
            false,
            answers,
        ) == StepView::<CoinView, StdErrorView>::Ask(
            QuestionView::WhitelistPrice { whitelist: state.config.whitelist->0 },
        ),
        state.config.whitelist is Some && answers.whitelist_price is Some
            && answers.whitelist_price->0 is Err ==> price(state.config, false, answers)
            == StepView::<CoinView, StdErrorView>::Done(
            Err(answers.whitelist_price->0->Err_0.deep_view()),
        ),
{
}

/// Which senders are kept from minting, and what they are told. Nobody else is.
pub proof fn law_who_is_kept_from_minting(
    state: StateView,
    env: Env,
    info: MessageInfo,
    answers: Answers,
)
    ensures
        ({
            let out = execute_outcome(state, env, info, ExecuteMsg::Mint {  }, answers);
            let whitelist = state.config.whitelist->0;
            let count = count_of(state, info.sender@);
            let limit = answers.whitelist_config->0->Ok_0.per_address_limit;
            &&& state.config.whitelist is Some && answers.whitelist_config is None ==> out
                == Outcome::Ask(QuestionView::WhitelistConfig { whitelist })
            &&& state.config.whitelist is Some && answers.whitelist_config is Some
                && answers.whitelist_config->0 is Err ==> out == refused(
                ContractErrorView::Std(answers.whitelist_config->0->Err_0.deep_view()),
            )
            &&& members_only(state, answers) && answers.has_member is None ==> out == Outcome::Ask(
                QuestionView::HasMember { whitelist, member: info.sender@ },
            )
            &&& members_only(state, answers) && answers.has_member is Some
                && answers.has_member->0 is Err ==> out == refused(
                ContractErrorView::Std(answers.has_member->0->Err_0.deep_view()),
            )
            &&& members_only(state, answers) && answers.has_member == Some(
                Ok::<bool, StdError>(false),
            ) ==> out == refused(ContractErrorView::NotWhitelisted { addr: info.sender@ })
            &&& members_only(state, answers) && answers.has_member == Some(
                Ok::<bool, StdError>(true),
            ) && (count >= limit || count >= state.config.per_address_limit) ==> out == refused(
                ContractErrorView::MaxPerAddressLimitExceeded {  },
            )
            &&& open_to_all(state, answers) && env.time < state.config.start_time ==> out
                == refused(ContractErrorView::BeforeMintStartTime {  })
            &&& open_to_all(state, answers) && env.time >= state.config.start_time && count
                >= state.config.per_address_limit ==> out == refused(
                ContractErrorView::MaxPerAddressLimitExceeded {  },
            )
        }),
{
}

/// A sender who may mint is refused if nothing is left or the token contract is not
/// there, and then waits for the price.
pub proof fn law_what_a_mint_waits_for(
    state: StateView,
    env: Env,
    info: MessageInfo,
    answers: Answers,
)
    requires
        sender_may_mint(state, env, info, answers),
    ensures
        ({
            let out = execute_outcome(state, env, info, ExecuteMsg::Mint {  }, answers);
            &&& state.mintable_num_tokens == 0 ==> out == refused(ContractErrorView::SoldOut {  })
            &&& state.mintable_num_tokens > 0 && state.sg721_address is None ==> out == refused(
                ContractErrorView::Std(
                    StdErrorView::NotFound { kind: "cosmwasm_std::addresses::Addr"@ },
                ),
            )
            &&& token_can_be_made(state) && state.config.whitelist is Some
                && answers.whitelist_price is None ==> out == Outcome::Ask(
                QuestionView::WhitelistPrice { whitelist: state.config.whitelist->0 },
            )
            &&& token_can_be_made(state) && state.config.whitelist is Some
                && answers.whitelist_price is Some && answers.whitelist_price->0 is Err ==> out
                == refused(ContractErrorView::Std(answers.whitelist_price->0->Err_0.deep_view()))
        }),
{
}

/// The first coin of another denomination is among the funds, and none before it.
proof fn lemma_first_other(funds: Seq<CoinView>, denom: Seq<char>, at: int)
    requires
        0 <= at < funds.len(),
        funds[at].denom != denom,
        forall|i: int| 0 <= i < at ==> (#[trigger] funds[i]).denom == denom,
    ensures
        first_other_denom(funds, denom) == funds[at].denom,
    decreases funds.len(),
{
    if funds[0].denom == denom {
        assert forall|i: int| 0 <= i < at - 1 implies (#[trigger] funds.drop_first()[i]).denom
            == denom by {
            assert(funds.drop_first()[i] == funds[i + 1]);
        }
        lemma_first_other(funds.drop_first(), denom, at - 1);
    }
}

/// Funds with a coin of another denomination than the sale's are refused, and the
/// first such denomination is named. The admin's funds are no exception.
pub proof fn law_other_coins_are_refused(
    state: StateView,
    env: Env,
    info: MessageInfo,
    msg: ExecuteMsg,
    answers: Answers,
    at: int,
)
    requires
        token_can_be_made(state),
        msg is Mint ==> sender_may_mint(state, env, info, answers) && price_known(state, answers),
        msg is MintTo || msg is MintFor ==> info.sender@ == state.config.admin && answers.address
            is Some && answers.address->0 is Ok,
        msg is Mint || msg is MintTo || msg is MintFor,
        0 <= at < info.funds.deep_view().len(),
        info.funds.deep_view()[at].denom != state.config.unit_price.denom,
        forall|i: int|
            0 <= i < at ==> (#[trigger] info.funds.deep_view()[i]).denom
                == state.config.unit_price.denom,
    ensures
        execute_outcome(state, env, info, msg, answers) == refused(
            ContractErrorView::Payment(
                PaymentErrorView::ExtraDenom(info.funds.deep_view()[at].denom),
            ),
        ),
{
    lemma_first_other(info.funds.deep_view(), state.config.unit_price.denom, at);
}

/// How much of the sale's denomination funds hold that are at most one coin, of that
/// denomination.
pub open spec fn plainly_paid(state: StateView, info: MessageInfo, amount: u128) -> bool {
    let funds = info.funds.deep_view();
    ||| funds.len() == 0 && amount == 0
    ||| funds.len() == 1 && funds[0] == CoinView {
        denom: state.config.unit_price.denom,
        amount,
    }
}

/// A sender who may mint and pays anything but the price is refused, with the payment
/// and the price. So is one who pays a price of nothing, or one that is not in
/// ustars, for want of a fee.
pub proof fn law_wrong_payment_is_refused(
    state: StateView,
    env: Env,
    info: MessageInfo,
    answers: Answers,
    paid: u128,
)
    requires
        sender_may_mint(state, env, info, answers),
        token_can_be_made(state),
        price_known(state, answers),
        plainly_paid(state, info, paid),
    ensures
        ({
            let out = execute_outcome(state, env, info, ExecuteMsg::Mint {  }, answers);
            let due = price_due(state, answers);
            let denom = state.config.unit_price.denom;
            &&& paid != due.amount ==> out == refused(
                ContractErrorView::IncorrectPaymentAmount(CoinView { denom, amount: paid }, due),
            )
            &&& paid == due.amount && paid == 0 ==> out == refused(
                ContractErrorView::Fee(FeeErrorView::Payment(PaymentErrorView::NoFunds {  })),
            )
            &&& paid == due.amount && paid > 0 && denom != "ustars"@ ==> out == refused(
                ContractErrorView::Fee(
                    FeeErrorView::Payment(PaymentErrorView::MissingDenom("ustars"@)),
                ),
            )
        }),
{
}

/// Whether a mint gets as far as its funds and then finds two or more coins that are
/// all of the sale's denomination: on those, and on no others, it can say nothing.
pub proof fn law_which_funds_cannot_be_read(
    state: StateView,
    env: Env,
    info: MessageInfo,
    msg: ExecuteMsg,
    answers: Answers,
)
    ensures
        stuck(state, env, info, msg, answers) <==> {
            &&& {
                ||| msg is Mint && sender_may_mint(state, env, info, answers) && price_known(
                    state,
                    answers,
                )
                ||| (msg is MintTo || msg is MintFor) && info.sender@ == state.config.admin
                    && answers.address is Some && answers.address->0 is Ok
            }
            &&& token_can_be_made(state)
            &&& info.funds.deep_view().len() >= 2
            &&& forall|i: int|
                0 <= i < info.funds.deep_view().len() ==> (
                #[trigger] info.funds.deep_view()[i]).denom == state.config.unit_price.denom
        },
{
}

/// A mint for the sender succeeds exactly for a sender who may mint, while a token
/// can be made, and who sends one coin of ustars, the sale's denomination, that
/// holds the price, more than nothing.
pub proof fn law_mint_succeeds_exactly(
    state: StateView,
    env: Env,
    info: MessageInfo,
    answers: Answers,
)
    requires
        !stuck(state, env, info, ExecuteMsg::Mint {  }, answers),
    ensures
        execute_outcome(state, env, info, ExecuteMsg::Mint {  }, answers) matches StepView::Done(
            Ok(_),
        ) <==> {
            &&& sender_may_mint(state, env, info, answers)
            &&& token_can_be_made(state)
            &&& price_known(state, answers)
            &&& price_due(state, answers).amount > 0
            &&& state.config.unit_price.denom == "ustars"@
            &&& info.funds.deep_view() == seq![
                CoinView { denom: "ustars"@, amount: price_due(state, answers).amount },
            ]
        },
{
    let funds = info.funds.deep_view();
    let coin = CoinView { denom: "ustars"@, amount: price_due(state, answers).amount };
    if funds == seq![coin] {
        assert(funds[0] == coin);
    }
    if execute_outcome(state, env, info, ExecuteMsg::Mint {  }, answers) matches StepView::Done(
        Ok(_),
    ) {
        assert(funds.len() == 1);
        assert(funds[0] == coin);
        assert(funds =~= seq![coin]);
    }
}

/// What keeps the admin, or anyone else, from minting for a recipient. Neither the
/// counts nor the limits, nor the start time, nor a whitelist do.
pub proof fn law_what_keeps_the_admin_from_minting(
    state: StateView,
    env: Env,
    info: MessageInfo,
    msg: ExecuteMsg,
    recipient: Seq<char>,
    answers: Answers,
    paid: u128,
)
    requires
        (msg matches ExecuteMsg::MintTo { recipient: r } && r@ == recipient) || (
        msg matches ExecuteMsg::MintFor { recipient: r, .. } && r@ == recipient),
    ensures
        ({
            let out = execute_outcome(state, env, info, msg, answers);
            let valid = answers.address is Some && answers.address->0 is Ok;
            let admitted = valid && info.sender@ == state.config.admin;
            let denom = state.config.unit_price.denom;
            &&& answers.address is None ==> out == Outcome::Ask(
                QuestionView::ValidateAddress { input: recipient },
            )
            &&& answers.address is Some && answers.address->0 is Err ==> out == refused(
                ContractErrorView::Std(answers.address->0->Err_0.deep_view()),
            )
            &&& valid && info.sender@ != state.config.admin ==> out == refused(
                ContractErrorView::Unauthorized("Sender is not an admin"@),
            )
            &&& admitted && state.mintable_num_tokens == 0 ==> out == refused(
                ContractErrorView::SoldOut {  },
            )
            &&& admitted && state.mintable_num_tokens > 0 && state.sg721_address is None ==> out
                == refused(
                ContractErrorView::Std(
                    StdErrorView::NotFound { kind: "cosmwasm_std::addresses::Addr"@ },
                ),
            )
            &&& admitted && token_can_be_made(state) && plainly_paid(state, info, paid) && paid != 0
                ==> out == refused(
                ContractErrorView::IncorrectPaymentAmount(
                    CoinView { denom, amount: paid },
                    CoinView { denom, amount: 0 },
                ),
            )
        }),
{
}

/// The admin, who sends nothing, mints for any recipient whose address is valid as
/// long as a token can be made: any token by chance, and a given one exactly if its
/// number is one of the sale's and it is still left.
pub proof fn law_admin_mint_succeeds_exactly(
    state: StateView,
    env: Env,
    info: MessageInfo,
    msg: ExecuteMsg,
    answers: Answers,
)
    requires
        info.sender@ == state.config.admin,
        answers.address is Some,
        answers.address->0 is Ok,
        token_can_be_made(state),
        plainly_paid(state, info, 0),
    ensures
        msg is MintTo ==> (execute_outcome(state, env, info, msg, answers) matches StepView::Done(
            Ok(_),
        )),
        msg matches ExecuteMsg::MintFor { token_id, .. } ==> {
            let out = execute_outcome(state, env, info, msg, answers);
            let left = exists|i: int|
                0 <= i < state.positions.len() && (#[trigger] state.positions[i]).token_id
                    == token_id;
            &&& token_id == 0 || token_id > state.config.num_tokens ==> out == refused(
                ContractErrorView::InvalidTokenId {  },
            )
            &&& 1 <= token_id <= state.config.num_tokens && !left ==> out == refused(
                ContractErrorView::TokenIdAlreadySold { token_id },
            )
            &&& 1 <= token_id <= state.config.num_tokens && left ==> (
            out matches StepView::Done(Ok(_)))
        },
{
    if let ExecuteMsg::MintFor { token_id, .. } = msg {
        let ids = token_ids(state.positions);
        ids.index_of_first_ensures(token_id);
        if exists|i: int|
            0 <= i < state.positions.len() && (#[trigger] state.positions[i]).token_id
                == token_id {
            let i = choose|i: int|
                0 <= i < state.positions.len() && (#[trigger] state.positions[i]).token_id
                    == token_id;
            assert(ids[i] == token_id);
            assert(ids.contains(token_id));
        }
        if ids.contains(token_id) {
            let i = choose|i: int| 0 <= i < ids.len() && ids[i] == token_id;
            assert(state.positions[i].token_id == token_id);
        }
    }
}

/// Which entry of the table a mint takes: that of the token asked for, the first if
/// there were several; or the one that the digest of the sender, the number of tokens
/// left and the height of the block picks, from among the fifty at either end.
pub open spec fn takes(
    state: StateView,
    env: Env,
    info: MessageInfo,
    msg: ExecuteMsg,
    at: int,
) -> bool {
    let n = state.mintable_num_tokens;
    let text = info.sender@ + decimal(n as nat) + decimal(env.height as nat);
    let r = xoshiro_first(sha256(encode_utf8(text)).subrange(0, 16));
    let span: u32 = if n < 50 {
        n
    } else {
        50
    };
    &&& 0 <= at < state.positions.len()
    &&& match msg {
        ExecuteMsg::MintFor { token_id, .. } => {
            &&& state.positions[at].token_id == token_id
            &&& forall|i: int|
                0 <= i < at ==> (#[trigger] state.positions[i]).token_id != token_id
        },
        _ => at == if r % 2 == 1 {
            n - 1 - r % span
        } else {
            (r % span) as int
        },
    }
}

/// Every mint that succeeds takes an entry.
pub proof fn law_mint_takes_an_entry(
    state: StateView,
    env: Env,
    info: MessageInfo,
    msg: ExecuteMsg,
    answers: Answers,
)
    requires
        state.positions.len() == state.mintable_num_tokens,
        msg is Mint || msg is MintTo || msg is MintFor,
        execute_outcome(state, env, info, msg, answers) matches StepView::Done(Ok(_)),
    ensures
        exists|at: int| takes(state, env, info, msg, at),
{
    match msg {
        ExecuteMsg::MintFor { token_id, .. } => {
            let ids = token_ids(state.positions);
            ids.index_of_first_ensures(token_id);
            let at = ids.index_of_first(token_id)->0;
            assert(ids[at] == state.positions[at].token_id);
            assert forall|i: int| 0 <= i < at implies (#[trigger] state.positions[i]).token_id
                != token_id by {
                assert(ids[i] == state.positions[i].token_id);
            }
            assert(takes(state, env, info, msg, at));
        },
        _ => {
            let n = state.mintable_num_tokens;
            let text = info.sender@ + decimal(n as nat) + decimal(env.height as nat);
            let r = xoshiro_first(sha256(encode_utf8(text)).subrange(0, 16));
            let span: u32 = if n < 50 {
                n
            } else {
                50
            };
            let at = if r % 2 == 1 {
                n - 1 - r % span
            } else {
                (r % span) as int
            };
            assert(takes(state, env, info, msg, at));
        },
    }
}

/// A message on which no report is wanted, as it is sent.
pub open spec fn sent(msg: CosmosMsgView) -> SubMsgView {
    SubMsgView { id: 0, msg, gas_limit: None, reply_on: ReplyOn::Never }
}

/// A mint that succeeds takes its entry out of the table, counts one less to mint and
/// one more for the sender, and changes nothing else.
pub proof fn law_mint_changes(
    state: StateView,
    env: Env,
    info: MessageInfo,
    msg: ExecuteMsg,
    answers: Answers,
    at: int,
    after: StateView,
    told: ResponseView,
)
    requires
        state.wf(),
        msg is Mint || msg is MintTo || msg is MintFor,
        takes(state, env, info, msg, at),
        execute_outcome(state, env, info, msg, answers) == Outcome::Done(Ok((after, told))),
    ensures
        after.config == state.config,
        after.sg721_address == state.sg721_address,
        after.mintable_num_tokens == state.mintable_num_tokens - 1,
        after.positions.len() == state.positions.len() - 1,
        forall|i: int|
            0 <= i < after.positions.len() ==> #[trigger] after.positions[i]
                == state.positions[if i < at {
                i
            } else {
                i + 1
            }],
        forall|a: Seq<char>| #[trigger]
            after.minters.contains_key(a) <==> state.minters.contains_key(a) || a == info.sender@,
        after.minters[info.sender@] == count_of(state, info.sender@) + 1,
        forall|a: Seq<char>|
            a != info.sender@ && state.minters.contains_key(a) ==> #[trigger] after.minters[a]
                == state.minters[a],
{
    lemma_taken(state, env, info, msg, answers, at);
    assert(state.minters.contains_key(info.sender@) ==> state.minters[info.sender@]
        + state.mintable_num_tokens <= u32::MAX);
}

/// What a mint takes is what it comes to.
proof fn lemma_taken(
    state: StateView,
    env: Env,
    info: MessageInfo,
    msg: ExecuteMsg,
    answers: Answers,
    at: int,
)
    requires
        state.wf(),
        msg is Mint || msg is MintTo || msg is MintFor,
        takes(state, env, info, msg, at),
        execute_outcome(state, env, info, msg, answers) matches StepView::Done(Ok(_)),
    ensures
        crate::laws::taken(state, env, info, msg) == Ok::<int, ContractErrorView>(at),
{
    if let ExecuteMsg::MintFor { token_id, .. } = msg {
        let ids = token_ids(state.positions);
        ids.index_of_first_ensures(token_id);
        let found = ids.index_of_first(token_id)->0;
        assert(ids[at] == token_id);
        assert(ids.contains(token_id));
        assert(ids[found] == state.positions[found].token_id);
        if found < at {
            assert(state.positions[found].token_id == token_id);
        } else if at < found {
            assert(ids[at] != token_id);
        }
    }
}

/// A mint for the sender that succeeds at a price sends three messages: a tenth of
/// what was paid, rounded down, is the fee, of which half, rounded down, is burned
/// and the rest goes to the community pool, whichever price holds; and the token
/// contract is told to make the token that was taken, for the sender.
pub proof fn law_mint_tells(
    state: StateView,
    env: Env,
    info: MessageInfo,
    answers: Answers,
    at: int,
    after: StateView,
    told: ResponseView,
)
    requires
        state.wf(),
        takes(state, env, info, ExecuteMsg::Mint {  }, at),
        execute_outcome(state, env, info, ExecuteMsg::Mint {  }, answers) == Outcome::Done(
            Ok((after, told)),
        ),
    ensures
        ({
            let paid = info.funds.deep_view()[0].amount;
            let fee: u128 = paid / 10;
            let burned: u128 = fee / 2;
            let id = decimal(state.positions[at].token_id as nat);
            &&& paid == price_due(state, answers).amount
            &&& told.messages == seq![
                sent(
                    CosmosMsgView::Burn {
                        amount: seq![CoinView { denom: "ustars"@, amount: burned }],
                    },
                ),
                sent(
                    CosmosMsgView::FundCommunityPool {
                        amount: seq![
                            CoinView { denom: "ustars"@, amount: (fee - burned) as u128 },
                        ],
                    },
                ),
                sent(
                    CosmosMsgView::Execute {
                        contract_addr: state.sg721_address->0,
                        msg: mint_json(
                            id,
                            info.sender@,
                            state.config.base_token_uri + "/"@ + id,
                        ),
                        funds: Seq::empty(),
                    },
                ),
            ]
            &&& told.attributes == seq![
                ("action"@, "mint_sender"@),
                ("sender"@, info.sender@),
                ("recipient"@, info.sender@),
                ("token_id"@, id),
                ("network_fee"@, decimal(fee as nat)),
                ("mint_price"@, decimal(paid as nat)),
            ]
        }),
{
    lemma_taken(state, env, info, ExecuteMsg::Mint {  }, answers, at);
    let paid = info.funds.deep_view()[0].amount;
    let fee: u128 = paid / 10;
    let burned: u128 = fee / 2;
    let id = decimal(state.positions[at].token_id as nat);
    assert(told.messages =~= seq![
        sent(
            CosmosMsgView::Burn { amount: seq![CoinView { denom: "ustars"@, amount: burned }] },
        ),
        sent(
            CosmosMsgView::FundCommunityPool {
                amount: seq![CoinView { denom: "ustars"@, amount: (fee - burned) as u128 }],
            },
        ),
        sent(
            CosmosMsgView::Execute {
                contract_addr: state.sg721_address->0,
                msg: mint_json(id, info.sender@, state.config.base_token_uri + "/"@ + id),
                funds: Seq::empty(),
            },
        ),
    ]);
    assert(told.attributes =~= seq![
        ("action"@, "mint_sender"@),
        ("sender"@, info.sender@),
        ("recipient"@, info.sender@),
        ("token_id"@, id),
        ("network_fee"@, decimal(fee as nat)),
        ("mint_price"@, decimal(paid as nat)),
    ]);
}

/// A mint by the admin that succeeds sends one message, which tells the token
/// contract to make the token that was taken for the recipient; no fee is taken.
pub proof fn law_admin_mint_tells(
    state: StateView,
    env: Env,
    info: MessageInfo,
    msg: ExecuteMsg,
    answers: Answers,
    at: int,
    after: StateView,
    told: ResponseView,
)
    requires
        state.wf(),
        msg is MintTo || msg is MintFor,
        takes(state, env, info, msg, at),
        execute_outcome(state, env, info, msg, answers) == Outcome::Done(Ok((after, told))),
    ensures
        ({
            let owner = answers.address->0->Ok_0@;
            let id = decimal(state.positions[at].token_id as nat);
            &&& told.messages == seq![
                sent(
                    CosmosMsgView::Execute {
                        contract_addr: state.sg721_address->0,
                        msg: mint_json(id, owner, state.config.base_token_uri + "/"@ + id),
                        funds: Seq::empty(),
                    },
                ),
            ]
            &&& told.attributes == seq![
                (
                    "action"@,
                    if msg is MintTo {
                        "mint_to"@
                    } else {
                        "mint_for"@
                    },
                ),
                ("sender"@, info.sender@),
                ("recipient"@, owner),
                ("token_id"@, id),
                ("network_fee"@, decimal(0)),
                ("mint_price"@, decimal(0)),
            ]
        }),
{
    lemma_taken(state, env, info, msg, answers, at);
    let owner = answers.address->0->Ok_0@;
    let id = decimal(state.positions[at].token_id as nat);
    assert(told.messages =~= seq![
        sent(
            CosmosMsgView::Execute {
                contract_addr: state.sg721_address->0,
                msg: mint_json(id, owner, state.config.base_token_uri + "/"@ + id),
                funds: Seq::empty(),
            },
        ),
    ]);
    assert(told.attributes =~= seq![
        (
            "action"@,
            if msg is MintTo {
                "mint_to"@
            } else {
                "mint_for"@
            },
        ),
        ("sender"@, info.sender@),
        ("recipient"@, owner),
        ("token_id"@, id),
        ("network_fee"@, decimal(0)),
        ("mint_price"@, decimal(0)),
    ]);
}

} // verus!
