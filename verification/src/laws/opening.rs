//! What the setting up of a sale does, said of what goes in and what comes out.

use crate::chain::{
    Answers, CoinView, CosmosMsgView, Env, MessageInfo, QuestionView, ReplyOn, Response,
    ResponseView, Step, StepView, SubMsgView,
};
use crate::error::{ContractError, ContractErrorView};
use crate::laws::minting::refused;
use crate::msg::{InstantiateMsg, Sg721InstantiateMsgView};
use crate::outcome::Outcome;
use crate::outside::{fisher_yates, permutes, reply_address, sha256, url_scheme};
use crate::setup::{instantiate, instantiate_outcome, reply_outcome, reported_address};
use crate::state::{ConfigView, State, StateView, TokenPositionMapping};
use crate::text::decimal;
use crate::tokens::{numbered, random_order};
use vstd::prelude::*;
use vstd::utf8::encode_utf8;

verus! {

/// Whether nothing is wrong with the terms of a sale, given the scheme of its base
/// token URI: up to ten thousand tokens, up to fifty for an address, described on
/// IPFS, at fifty million ustars or more, from a time that is neither past nor before
/// the genesis.
pub open spec fn good_terms(
    env: Env,
    msg: InstantiateMsg,
    scheme: Result<Seq<char>, Seq<char>>,
) -> bool {
    &&& 1 <= msg.num_tokens <= 10_000
    &&& 1 <= msg.per_address_limit <= 50
    &&& scheme == Ok::<Seq<char>, Seq<char>>("ipfs"@)
    &&& msg.unit_price.denom@ == "ustars"@
    &&& msg.unit_price.amount >= 50_000_000
    &&& msg.start_time >= 1_647_032_400_000_000_000
    &&& msg.start_time >= env.time
}

/// A sale is set up exactly on good terms, once a whitelist that was given has been
/// looked at; whether that is an address does not matter.
pub proof fn law_setup_succeeds_exactly(
    env: Env,
    info: MessageInfo,
    msg: InstantiateMsg,
    answers: Answers,
    scheme: Result<Seq<char>, Seq<char>>,
    order: Seq<u32>,
)
    ensures
        ({
            let out = instantiate_outcome(env, info, msg, answers, scheme, order);
            &&& (out matches StepView::Done(Ok(_))) <==> good_terms(env, msg, scheme) && (
            msg.whitelist is Some ==> answers.address is Some)
            &&& (out matches StepView::Done(Err(_))) <==> !good_terms(env, msg, scheme)
            &&& good_terms(env, msg, scheme) && msg.whitelist is Some && answers.address is None
                ==> out == Outcome::Ask(
                QuestionView::ValidateAddress { input: msg.whitelist->0@ },
            )
        }),
{
}

/// What is wrong with the terms of a sale is said, and the first thing first: the
/// number of tokens, the limit per address, the base token URI, the denomination, the
/// price, and the start time, which is held against the genesis before the present.
pub proof fn law_what_is_wrong_is_said(
    env: Env,
    info: MessageInfo,
    msg: InstantiateMsg,
    answers: Answers,
    scheme: Result<Seq<char>, Seq<char>>,
    order: Seq<u32>,
)
    ensures
        ({
            let out = instantiate_outcome(env, info, msg, answers, scheme, order);
            let number = 1 <= msg.num_tokens <= 10_000;
            let limit = number && 1 <= msg.per_address_limit <= 50;
            let url = limit && scheme is Ok;
            let ipfs = url && scheme->Ok_0 == "ipfs"@;
            let denom = ipfs && msg.unit_price.denom@ == "ustars"@;
            let price = denom && msg.unit_price.amount >= 50_000_000;
            let genesis = price && msg.start_time >= 1_647_032_400_000_000_000;
            &&& !number ==> out == refused(
                ContractErrorView::InvalidNumTokens { max: 10_000, min: 1 },
            )
            &&& number && !limit ==> out == refused(
                ContractErrorView::InvalidPerAddressLimit {
                    max: 50,
                    min: 1,
                    got: msg.per_address_limit,
                },
            )
            &&& limit && !url ==> out == refused(ContractErrorView::ParseError(scheme->Err_0))
            &&& url && !ipfs ==> out == refused(ContractErrorView::InvalidBaseTokenURI {  })
            &&& ipfs && !denom ==> out == refused(
                ContractErrorView::InvalidDenom {
                    expected: "ustars"@,
                    got: msg.unit_price.denom@,
                },
            )
            &&& denom && !price ==> out == refused(
                ContractErrorView::InsufficientMintPrice {
                    expected: 50_000_000,
                    got: msg.unit_price.amount,
                },
            )
            &&& price && !genesis ==> out == refused(ContractErrorView::BeforeGenesisTime {  })
            &&& genesis && env.time > msg.start_time ==> out == refused(
                ContractErrorView::InvalidStartTime(msg.start_time, env.time),
            )
        }),
{
}

/// A sale that is set up holds the terms it was given, with the sender as admin and
/// the whitelist if it is an address. All its tokens are left: the token whose number
/// is the place of a position in the given order stands at that position, and the
/// positions run from one on. Nothing is minted, and there is no token contract yet.
pub proof fn law_setup_makes_the_sale(
    env: Env,
    info: MessageInfo,
    msg: InstantiateMsg,
    answers: Answers,
    scheme: Result<Seq<char>, Seq<char>>,
    order: Seq<u32>,
    state: StateView,
    told: ResponseView,
)
    requires
        order.len() == msg.num_tokens,
        order.no_duplicates(),
        forall|j: int| 0 <= j < order.len() ==> 1 <= #[trigger] order[j] <= order.len(),
        instantiate_outcome(env, info, msg, answers, scheme, order) == Outcome::Done(
            Ok((state, told)),
        ),
    ensures
        state.config == (ConfigView {
            admin: info.sender@,
            base_token_uri: msg.base_token_uri@,
            num_tokens: msg.num_tokens,
            sg721_code_id: msg.sg721_code_id,
            start_time: msg.start_time,
            unit_price: CoinView {
                denom: msg.unit_price.denom@,
                amount: msg.unit_price.amount,
            },
            per_address_limit: msg.per_address_limit,
            whitelist: if msg.whitelist is Some && answers.address->0 is Ok {
                Some(answers.address->0->Ok_0@)
            } else {
                None
            },
        }),
        state.sg721_address is None,
        state.mintable_num_tokens == msg.num_tokens,
        forall|a: Seq<char>| !#[trigger] state.minters.contains_key(a),
        state.positions.len() == msg.num_tokens,
        forall|k: int|
            0 <= k < state.positions.len() ==> (#[trigger] state.positions[k]).position == k + 1,
        forall|j: int|
            0 <= j < order.len() ==> state.positions[#[trigger] order[j] - 1] == (
            TokenPositionMapping { position: order[j], token_id: (j + 1) as u32 }),
{
    assert forall|j: int| 0 <= j < order.len() implies state.positions[#[trigger] order[j] - 1] == (
    TokenPositionMapping { position: order[j], token_id: (j + 1) as u32 }) by {
        assert(order.contains(order[j]));
        let at = order.index_of(order[j]);
        assert(0 <= at < order.len() && order[at] == order[j]);
    }
}

/// Setting up a sale sends one message, on whose success a report is wanted: it makes
/// the token contract, with this contract as its minter and the sender as its admin,
/// and hands on all the funds that were sent.
pub proof fn law_setup_makes_the_token_contract(
    env: Env,
    info: MessageInfo,
    msg: InstantiateMsg,
    answers: Answers,
    scheme: Result<Seq<char>, Seq<char>>,
    order: Seq<u32>,
    state: StateView,
    told: ResponseView,
)
    requires
        instantiate_outcome(env, info, msg, answers, scheme, order) == Outcome::Done(
            Ok((state, told)),
        ),
    ensures
        told.messages == seq![
            SubMsgView {
                id: 1,
                msg: CosmosMsgView::Instantiate {
                    admin: Some(info.sender@),
                    code_id: msg.sg721_code_id,
                    msg: Sg721InstantiateMsgView {
                        name: msg.sg721_instantiate_msg.name@,
                        symbol: msg.sg721_instantiate_msg.symbol@,
                        minter: env.contract@,
                        collection_info: msg.sg721_instantiate_msg.collection_info,
                    },
                    funds: info.funds.deep_view(),
                    label: "Fixed price minter"@,
                },
                gas_limit: None,
                reply_on: ReplyOn::Success,
            },
        ],
        told.attributes == seq![
            ("action"@, "instantiate"@),
            ("contract_name"@, "crates.io:sg-minter"@),
            ("contract_version"@, "0.1.0"@),
            ("sender"@, info.sender@),
        ],
{
    assert(told.messages =~= seq![told.messages[0]]);
    assert(told.attributes =~= seq![
        ("action"@, "instantiate"@),
        ("contract_name"@, "crates.io:sg-minter"@),
        ("contract_version"@, "0.1.0"@),
        ("sender"@, info.sender@),
    ]);
}

/// Every call of `instantiate` goes by the scheme of the base token URI that was given,
/// and by the order that the digest of the height of the block and the number of
/// tokens gives to the numbers from one on.
pub proof fn law_instantiate_goes_by_its_uri_and_its_block(
    env: Env,
    info: MessageInfo,
    msg: InstantiateMsg,
    answers: Answers,
    step: Step<(State, Response), ContractError>,
    order: Seq<u32>,
)
    requires
        call_ensures(instantiate, (&env, &info, msg, &answers), step),
        order.len() == msg.num_tokens,
        forall|i: int|
            0 <= i < order.len() ==> #[trigger] order[i] == fisher_yates(
                msg.num_tokens as nat,
                sha256(
                    encode_utf8(decimal(env.height as nat) + decimal(msg.num_tokens as nat)),
                ).subrange(0, 16),
                usize::BITS,
            )[i] + 1,
        permutes(
            fisher_yates(
                msg.num_tokens as nat,
                sha256(
                    encode_utf8(decimal(env.height as nat) + decimal(msg.num_tokens as nat)),
                ).subrange(0, 16),
                usize::BITS,
            ),
            msg.num_tokens as nat,
        ),
    ensures
        step.deep_view() == instantiate_outcome(
            env,
            info,
            msg,
            answers,
            url_scheme(msg.base_token_uri@),
            order,
        ),
{
    assert(order =~= random_order(env.height, numbered(msg.num_tokens as nat)));
}

/// A report that holds an address sets the address of the token contract and nothing
/// else; one that holds none is refused. A call that failed or returned nothing
/// reports no address.
pub proof fn law_report_is_taken(
    state: StateView,
    address: Option<Seq<char>>,
    data: Vec<u8>,
    failure: String,
)
    ensures
        address is None ==> reply_outcome(state, address) == Err::<
            (StateView, ResponseView),
            ContractErrorView,
        >(ContractErrorView::InstantiateSg721Error {  }),
        address is Some ==> {
            &&& reply_outcome(state, address) matches Ok((after, told))
            &&& after.sg721_address == address
            &&& after.config == state.config
            &&& after.mintable_num_tokens == state.mintable_num_tokens
            &&& after.positions == state.positions
            &&& after.minters == state.minters
            &&& told.messages.len() == 0
            &&& told.attributes == seq![("action"@, "instantiate_sg721_reply"@)]
        },
        reported_address(Ok(Some(data))) == reply_address(data@, usize::BITS),
        reported_address(Ok(None)) is None,
        reported_address(Err(failure)) is None,
{
    if let Ok((after, told)) = reply_outcome(state, address) {
        assert(told.attributes =~= seq![("action"@, "instantiate_sg721_reply"@)]);
    }
}

} // verus!
