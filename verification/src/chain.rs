//! What the contract sees of the chain and asks of it.

use crate::error::StdError;
use crate::msg::{Sg721InstantiateMsg, Sg721InstantiateMsgView};
use vstd::prelude::*;

verus! {

/// An amount of one denomination.
#[derive(Debug, PartialEq, Eq)]
pub struct Coin {
    pub denom: String,
    pub amount: u128,
}

/// The model of a [`Coin`].
pub struct CoinView {
    pub denom: Seq<char>,
    pub amount: u128,
}

impl DeepView for Coin {
    type V = CoinView;

    open spec fn deep_view(&self) -> CoinView {
        CoinView { denom: self.denom@, amount: self.amount }
    }
}

impl Clone for Coin {
    fn clone(&self) -> (copy: Self)
        ensures
            copy.deep_view() == self.deep_view(),
    {
        Coin { denom: self.denom.clone(), amount: self.amount }
    }
}

/// The block a message runs in and the contract it runs on.
#[derive(Debug, PartialEq, Eq)]
pub struct Env {
    /// The block's height.
    pub height: u64,
    /// The block's time, in nanoseconds since the epoch.
    pub time: u64,
    /// The address of this contract.
    pub contract: String,
}

/// Who sent a message, and with which funds.
#[derive(Debug, PartialEq, Eq)]
pub struct MessageInfo {
    pub sender: String,
    pub funds: Vec<Coin>,
}

/// A message that the contract sends.
#[allow(inconsistent_fields)]
#[derive(Debug, PartialEq, Eq)]
pub enum CosmosMsg {
    /// Destroys coins of the contract.
    Burn { amount: Vec<Coin> },
    /// Gives coins of the contract to the community pool.
    FundCommunityPool { amount: Vec<Coin> },
    /// Sends coins of the contract to an address.
    Send { to_address: String, amount: Vec<Coin> },
    /// Runs another contract on an encoded message.
    Execute { contract_addr: String, msg: Vec<u8>, funds: Vec<Coin> },
    /// Makes the token contract.
    Instantiate {
        admin: Option<String>,
        code_id: u64,
        msg: Sg721InstantiateMsg,
        funds: Vec<Coin>,
        label: String,
    },
}

/// The model of a [`CosmosMsg`].
#[allow(inconsistent_fields)]
pub enum CosmosMsgView {
    Burn { amount: Seq<CoinView> },
    FundCommunityPool { amount: Seq<CoinView> },
    Send { to_address: Seq<char>, amount: Seq<CoinView> },
    Execute { contract_addr: Seq<char>, msg: Seq<u8>, funds: Seq<CoinView> },
    Instantiate {
        admin: Option<Seq<char>>,
        code_id: u64,
        msg: Sg721InstantiateMsgView,
        funds: Seq<CoinView>,
        label: Seq<char>,
    },
}

impl DeepView for CosmosMsg {
    type V = CosmosMsgView;

    open spec fn deep_view(&self) -> CosmosMsgView {
        match self {
            CosmosMsg::Burn { amount } => CosmosMsgView::Burn { amount: amount.deep_view() },
            CosmosMsg::FundCommunityPool { amount } =>
                CosmosMsgView::FundCommunityPool { amount: amount.deep_view() },
            CosmosMsg::Send { to_address, amount } =>
                CosmosMsgView::Send { to_address: to_address@, amount: amount.deep_view() },
            CosmosMsg::Execute { contract_addr, msg, funds } =>
                CosmosMsgView::Execute {
                    contract_addr: contract_addr@,
                    msg: msg@,
                    funds: funds.deep_view(),
                },
            CosmosMsg::Instantiate { admin, code_id, msg, funds, label } =>
                CosmosMsgView::Instantiate {
                    admin: admin.deep_view(),
                    code_id: *code_id,
                    msg: msg.deep_view(),
                    funds: funds.deep_view(),
                    label: label@,
                },
        }
    }
}

/// When the chain reports back on a message.
#[derive(Debug, Clone, Copy, PartialEq, Eq, Structural)]
pub enum ReplyOn {
    Success,
    Never,
}

/// A message with the terms on which it is sent.
#[derive(Debug, PartialEq, Eq)]
pub struct SubMsg {
    pub id: u64,
    pub msg: CosmosMsg,
    pub gas_limit: Option<u64>,
    pub reply_on: ReplyOn,
}

/// The model of a [`SubMsg`].
pub struct SubMsgView {
    pub id: u64,
    pub msg: CosmosMsgView,
    pub gas_limit: Option<u64>,
    pub reply_on: ReplyOn,
}

impl DeepView for SubMsg {
    type V = SubMsgView;

    open spec fn deep_view(&self) -> SubMsgView {
        SubMsgView {
            id: self.id,
            msg: self.msg.deep_view(),
            gas_limit: self.gas_limit,
            reply_on: self.reply_on,
        }
    }
}

/// A message on which no report is wanted.
pub open spec fn plain_view(msg: CosmosMsgView) -> SubMsgView {
    SubMsgView { id: 0, msg, gas_limit: None, reply_on: ReplyOn::Never }
}

/// Sends a message on which no report is wanted.
pub fn plain(msg: CosmosMsg) -> (sub: SubMsg)
    ensures
        sub.deep_view() == plain_view(msg.deep_view()),
{
    SubMsg { id: 0, msg, gas_limit: None, reply_on: ReplyOn::Never }
}

/// What a message that succeeds leaves behind: its log and the messages it sends.
#[derive(Debug, PartialEq, Eq)]
pub struct Response {
    pub attributes: Vec<(String, String)>,
    pub messages: Vec<SubMsg>,
}

/// The model of a [`Response`].
pub struct ResponseView {
    pub attributes: Seq<(Seq<char>, Seq<char>)>,
    pub messages: Seq<SubMsgView>,
}

impl DeepView for Response {
    type V = ResponseView;

    open spec fn deep_view(&self) -> ResponseView {
        ResponseView {
            attributes: self.attributes.deep_view(),
            messages: self.messages.deep_view(),
        }
    }
}

impl ResponseView {
    /// A response with nothing in it.
    pub open spec fn empty() -> Self {
        ResponseView { attributes: Seq::empty(), messages: Seq::empty() }
    }

    /// The response with one more entry in its log.
    pub open spec fn attribute(self, key: Seq<char>, value: Seq<char>) -> Self {
        ResponseView { attributes: self.attributes.push((key, value)), ..self }
    }

    /// The response with one more message.
    pub open spec fn submessage(self, sub: SubMsgView) -> Self {
        ResponseView { messages: self.messages.push(sub), ..self }
    }

    /// The response with more messages on which no report is wanted.
    pub open spec fn plain_messages(self, msgs: Seq<CosmosMsgView>) -> Self {
        ResponseView {
            messages: self.messages + Seq::new(msgs.len(), |i: int| plain_view(msgs[i])),
            ..self
        }
    }
}

impl Response {
    /// A response with nothing in it.
    pub fn new() -> (response: Self)
        ensures
            response.deep_view() == ResponseView::empty(),
    {
        let response = Response { attributes: Vec::new(), messages: Vec::new() };
        assert(response.deep_view().attributes =~= Seq::empty());
        assert(response.deep_view().messages =~= Seq::empty());
        response
    }

    /// Adds an entry to the log.
    pub fn add_attribute(self, key: &str, value: String) -> (response: Self)
        ensures
            response.deep_view() == self.deep_view().attribute(key@, value@),
    {
        let mut response = self;
        response.attributes.push((key.to_owned(), value));
        assert(response.deep_view().attributes =~= self.deep_view().attribute(
            key@,
            value@,
        ).attributes);
        response
    }

    /// Adds a message.
    pub fn add_submessage(self, sub: SubMsg) -> (response: Self)
        ensures
            response.deep_view() == self.deep_view().submessage(sub.deep_view()),
    {
        let mut response = self;
        response.messages.push(sub);
        assert(response.deep_view().messages =~= self.deep_view().submessage(
            sub.deep_view(),
        ).messages);
        response
    }

    /// Adds messages on which no report is wanted.
    pub fn add_messages(self, msgs: Vec<CosmosMsg>) -> (response: Self)
        ensures
            response.deep_view() == self.deep_view().plain_messages(msgs.deep_view()),
    {
        let ghost start = self.deep_view();
        let ghost sent = msgs@;
        let ghost all = msgs.deep_view();
        let mut response = self;
        assert(start.plain_messages(all.take(0)).messages =~= start.messages);
        for msg in iter: msgs
            invariant
                iter.seq() == sent,
                all =~= Seq::new(sent.len(), |i: int| sent[i].deep_view()),
                response.deep_view() == start.plain_messages(all.take(iter.index())),
        {
            let ghost done = iter.index();
            response = response.add_submessage(plain(msg));
            assert(response.deep_view().messages =~= start.plain_messages(
                all.take(done + 1),
            ).messages);
        }
        assert(all.take(all.len() as int) =~= all);
        response
    }
}

/// What a whitelist contract says of itself.
#[derive(Debug, PartialEq, Eq)]
pub struct WhitelistConfig {
    /// How many tokens a member may mint while the whitelist is active.
    pub per_address_limit: u32,
    /// What a member pays for one.
    pub unit_price: Coin,
    /// Whether the whitelist is active at present.
    pub is_active: bool,
}

/// A question that only the chain can answer.
#[derive(Debug, PartialEq, Eq)]
pub enum Question {
    /// Is this text an address, and which?
    ValidateAddress { input: String },
    /// How much of a denomination does an address hold?
    Balance { address: String, denom: String },
    /// How is a whitelist set up?
    WhitelistConfig { whitelist: String },
    /// Is an address a member of a whitelist?
    HasMember { whitelist: String, member: String },
    /// How is a whitelist set up, as far as the price of a mint goes?
    WhitelistPrice { whitelist: String },
}

/// The model of a [`Question`].
pub enum QuestionView {
    ValidateAddress { input: Seq<char> },
    Balance { address: Seq<char>, denom: Seq<char> },
    WhitelistConfig { whitelist: Seq<char> },
    HasMember { whitelist: Seq<char>, member: Seq<char> },
    WhitelistPrice { whitelist: Seq<char> },
}

impl DeepView for Question {
    type V = QuestionView;

    open spec fn deep_view(&self) -> QuestionView {
        match self {
            Question::ValidateAddress { input } => QuestionView::ValidateAddress { input: input@ },
            Question::Balance { address, denom } =>
                QuestionView::Balance { address: address@, denom: denom@ },
            Question::WhitelistConfig { whitelist } =>
                QuestionView::WhitelistConfig { whitelist: whitelist@ },
            Question::HasMember { whitelist, member } =>
                QuestionView::HasMember { whitelist: whitelist@, member: member@ },
            Question::WhitelistPrice { whitelist } =>
                QuestionView::WhitelistPrice { whitelist: whitelist@ },
        }
    }
}

/// What the chain has answered so far to the questions of one call.
#[derive(Debug, PartialEq, Eq)]
pub struct Answers {
    pub address: Option<Result<String, StdError>>,
    pub balance: Option<Result<Coin, StdError>>,
    pub whitelist_config: Option<Result<WhitelistConfig, StdError>>,
    pub has_member: Option<Result<bool, StdError>>,
    pub whitelist_price: Option<Result<WhitelistConfig, StdError>>,
}

impl Answers {
    /// Before the first question.
    pub fn none() -> (answers: Self)
        ensures
            answers.address is None,
            answers.balance is None,
            answers.whitelist_config is None,
            answers.has_member is None,
            answers.whitelist_price is None,
    {
        Answers {
            address: None,
            balance: None,
            whitelist_config: None,
            has_member: None,
            whitelist_price: None,
        }
    }
}

/// The model of a result.
pub open spec fn result_view<T: DeepView, E: DeepView>(r: Result<T, E>) -> Result<T::V, E::V> {
    match r {
        Ok(value) => Ok(value.deep_view()),
        Err(e) => Err(e.deep_view()),
    }
}

/// How far a call has come.
#[derive(Debug, PartialEq, Eq)]
pub enum Step<T, E> {
    /// The chain has to answer this; the call is then made again, with the answer.
    Ask(Question),
    /// The call is over.
    Done(Result<T, E>),
}

/// The model of a [`Step`].
pub enum StepView<T, E> {
    Ask(QuestionView),
    Done(Result<T, E>),
}

impl<T: DeepView, E: DeepView> DeepView for Step<T, E> {
    type V = StepView<T::V, E::V>;

    open spec fn deep_view(&self) -> StepView<T::V, E::V> {
        match self {
            Step::Ask(question) => StepView::Ask(question.deep_view()),
            Step::Done(r) => StepView::Done(result_view(*r)),
        }
    }
}

} // verus!
