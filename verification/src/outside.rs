//! Calls into outside crates. What each contract here says of its crate is
//! believed, not proved.

use crate::chain::{result_view, Coin, CoinView};
use crate::error::{PaymentError, PaymentErrorView, StdError};
use crate::text::{decimal, padded};
use rand_core::{RngCore, SeedableRng};
use sha2::Digest;
use shuffle::shuffler::Shuffler;
use vstd::prelude::*;

verus! {

/// The scheme of the URL that a text holds, or the text of the error if it
/// holds none: what `url::Url::parse` and `url::Url::scheme` make of it.
pub uninterp spec fn url_scheme(input: Seq<char>) -> Result<Seq<char>, Seq<char>>;

/// `url::Url::parse`, and of the URL only what `url::Url::scheme` returns; of the
/// error its text. Claims that both depend on the input alone.
#[verifier::external_body]
pub(crate) fn parse_url_scheme(input: &str) -> (r: Result<String, String>)
    ensures
        result_view(r) == url_scheme(input@),
{
    match url::Url::parse(input) {
        Ok(url) => Ok(url.scheme().to_string()),
        Err(e) => Err(e.to_string()),
    }
}

/// Whether optional funds can be read at all: two or more coins that are all of
/// the wanted denomination cannot.
pub open spec fn readable(funds: Seq<CoinView>, denom: Seq<char>) -> bool {
    funds.len() < 2 || exists|i: int| 0 <= i < funds.len() && #[trigger] funds[i].denom != denom
}

/// How much of a denomination was sent, where nothing need be: nothing, or one
/// coin of it. Else the first other denomination is what is wrong.
pub open spec fn optional_payment(funds: Seq<CoinView>, denom: Seq<char>) -> Result<
    u128,
    PaymentErrorView,
> {
    if funds.len() == 0 {
        Ok(0)
    } else if funds.len() == 1 && funds[0].denom == denom {
        Ok(funds[0].amount)
    } else {
        Err(PaymentErrorView::ExtraDenom(first_other_denom(funds, denom)))
    }
}

/// The denomination of the first coin that is not of the given one.
pub open spec fn first_other_denom(funds: Seq<CoinView>, denom: Seq<char>) -> Seq<char>
    decreases funds.len(),
{
    if funds.len() == 0 {
        denom
    } else if funds[0].denom != denom {
        funds[0].denom
    } else {
        first_other_denom(funds.drop_first(), denom)
    }
}

/// `cw_utils::may_pay` on a message with these funds. It panics on funds that are
/// not readable. Claims that it returns what `optional_payment` says.
#[verifier::external_body]
pub(crate) fn may_pay(funds: &Vec<Coin>, denom: &str) -> (r: Result<u128, PaymentError>)
    requires
        readable(funds.deep_view(), denom@),
    ensures
        result_view(r) == optional_payment(funds.deep_view(), denom@),
{
    let sender = cosmwasm_std::Addr::unchecked("");
    let funds = funds.iter().map(|c| cosmwasm_std::coin(c.amount, c.denom.as_str())).collect();
    match cw_utils::may_pay(&cosmwasm_std::MessageInfo { sender, funds }, denom) {
        Ok(amount) => Ok(amount.u128()),
        Err(cw_utils::PaymentError::MissingDenom(d)) => Err(PaymentError::MissingDenom(d)),
        Err(cw_utils::PaymentError::ExtraDenom(d)) => Err(PaymentError::ExtraDenom(d)),
        Err(cw_utils::PaymentError::MultipleDenoms {}) => Err(PaymentError::MultipleDenoms {}),
        Err(cw_utils::PaymentError::NoFunds {}) => Err(PaymentError::NoFunds {}),
        Err(cw_utils::PaymentError::NonPayable {}) => Err(PaymentError::NonPayable {}),
    }
}

/// How much of a denomination was sent, where some has to be: exactly one coin,
/// of that denomination, and more than nothing of it.
pub open spec fn required_payment(funds: Seq<CoinView>, denom: Seq<char>) -> Result<
    u128,
    PaymentErrorView,
> {
    if funds.len() == 0 {
        Err(PaymentErrorView::NoFunds {  })
    } else if funds.len() > 1 {
        Err(PaymentErrorView::MultipleDenoms {  })
    } else if funds[0].amount == 0 {
        Err(PaymentErrorView::NoFunds {  })
    } else if funds[0].denom != denom {
        Err(PaymentErrorView::MissingDenom(denom))
    } else {
        Ok(funds[0].amount)
    }
}

/// `cw_utils::must_pay` on a message with these funds. Claims that it returns what
/// `required_payment` says.
#[verifier::external_body]
pub(crate) fn must_pay(funds: &Vec<Coin>, denom: &str) -> (r: Result<u128, PaymentError>)
    ensures
        result_view(r) == required_payment(funds.deep_view(), denom@),
{
    let sender = cosmwasm_std::Addr::unchecked("");
    let funds = funds.iter().map(|c| cosmwasm_std::coin(c.amount, c.denom.as_str())).collect();
    match cw_utils::must_pay(&cosmwasm_std::MessageInfo { sender, funds }, denom) {
        Ok(amount) => Ok(amount.u128()),
        Err(cw_utils::PaymentError::MissingDenom(d)) => Err(PaymentError::MissingDenom(d)),
        Err(cw_utils::PaymentError::ExtraDenom(d)) => Err(PaymentError::ExtraDenom(d)),
        Err(cw_utils::PaymentError::MultipleDenoms {}) => Err(PaymentError::MultipleDenoms {}),
        Err(cw_utils::PaymentError::NoFunds {}) => Err(PaymentError::NoFunds {}),
        Err(cw_utils::PaymentError::NonPayable {}) => Err(PaymentError::NonPayable {}),
    }
}

/// The product of a `cosmwasm_std::Uint128` and a `cosmwasm_std::Decimal::percent`.
/// Claims that it is rounded down, and that up to a hundred percent it does not
/// overflow (where it does, the multiplication panics).
#[verifier::external_body]
pub(crate) fn percent_of(amount: u128, percent: u64) -> (share: u128)
    requires
        percent <= 100,
    ensures
        share == (amount * percent) / 100,
{
    (cosmwasm_std::Uint128::new(amount) * cosmwasm_std::Decimal::percent(percent)).u128()
}

/// The SHA-256 digest of some bytes: what `sha2::Sha256::digest` returns.
pub uninterp spec fn sha256(data: Seq<u8>) -> Seq<u8>;

/// `sha2::Sha256::digest`. Claims that the digest depends on the bytes alone and
/// is 32 bytes long.
#[verifier::external_body]
pub(crate) fn sha256_digest(data: &[u8]) -> (digest: Vec<u8>)
    ensures
        digest@ == sha256(data@),
        digest@.len() == 32,
{
    sha2::Sha256::digest(data).to_vec()
}

/// The first number of a generator with this seed: what
/// `rand_xoshiro::Xoshiro128PlusPlus::from_seed` and then `next_u32` make of it.
pub uninterp spec fn xoshiro_first(seed: Seq<u8>) -> u32;

/// `rand_xoshiro::Xoshiro128PlusPlus::from_seed`, and the first `next_u32` of the
/// generator. Claims that the number depends on the seed alone.
#[verifier::external_body]
pub(crate) fn xoshiro_first_u32(seed: [u8; 16]) -> (r: u32)
    ensures
        r == xoshiro_first(seed@),
{
    rand_xoshiro::Xoshiro128PlusPlus::from_seed(seed).next_u32()
}

/// The order in which `shuffle::fy::FisherYates` leaves a list of some length,
/// drawing from a `rand_xoshiro::Xoshiro128PlusPlus` with this seed: at each index
/// stands the index that the element had before. It draws machine words, so the
/// order depends on how many bits they have.
pub uninterp spec fn fisher_yates(length: nat, seed: Seq<u8>, word_bits: u32) -> Seq<int>;

/// Whether a list holds each index below `n` once.
pub open spec fn permutes(order: Seq<int>, n: nat) -> bool {
    &&& order.len() == n
    &&& order.no_duplicates()
    &&& forall|i: int| 0 <= i < n ==> 0 <= #[trigger] order[i] < n
}

/// A list with its elements in the order of the given indices.
pub open spec fn rearranged(list: Seq<u32>, order: Seq<int>) -> Seq<u32> {
    Seq::new(list.len(), |i: int| list[order[i]])
}

/// `shuffle::fy::FisherYates::shuffle` with a `rand_xoshiro::Xoshiro128PlusPlus`
/// made by `from_seed`. Claims that it succeeds, that it moves every element of the
/// list to one place, and that where it moves them depends on the length of the
/// list, the seed and the width of a machine word alone: the shuffle only swaps
/// elements, at indices that it draws without looking at them.
#[verifier::external_body]
pub(crate) fn fisher_yates_shuffle(list: Vec<u32>, seed: [u8; 16]) -> (r: Result<Vec<u32>, String>)
    ensures
        r is Ok,
        r->Ok_0@ == rearranged(list@, fisher_yates(list@.len(), seed@, usize::BITS)),
        permutes(fisher_yates(list@.len(), seed@, usize::BITS), r->Ok_0@.len()),
{
    let mut list = list;
    let mut rng = rand_xoshiro::Xoshiro128PlusPlus::from_seed(seed);
    match shuffle::fy::FisherYates::default().shuffle(&mut list, &mut rng) {
        Ok(()) => Ok(list),
        Err(e) => Err(e.to_string()),
    }
}

/// The JSON of a `cw721_base::msg::ExecuteMsg::Mint` with an empty extension, as
/// `cosmwasm_std::to_binary` writes it.
pub uninterp spec fn mint_json(token_id: Seq<char>, owner: Seq<char>, token_uri: Seq<char>) -> Seq<
    u8,
>;

/// `cosmwasm_std::to_binary` on a `cw721_base::msg::ExecuteMsg::Mint` with an empty
/// extension. Claims that it succeeds (text can always be written) and that the
/// bytes depend on the three texts alone.
#[verifier::external_body]
#[allow(deprecated)]
pub(crate) fn mint_binary(token_id: String, owner: String, token_uri: String) -> (r: Result<
    Vec<u8>,
    StdError,
>)
    ensures
        r is Ok,
        r->Ok_0@ == mint_json(token_id@, owner@, token_uri@),
{
    let extension = cosmwasm_std::Empty {};
    let token_uri = Some(token_uri);
    let mint = cw721_base::MintMsg { token_id, owner, token_uri, extension };
    match cosmwasm_std::to_binary(&cw721_base::msg::ExecuteMsg::Mint(mint)) {
        Ok(binary) => Ok(binary.to_vec()),
        Err(e) => Err(StdError::GenericErr { msg: e.to_string() }),
    }
}

/// The contract address in the bytes that the making of a contract returns, as
/// `cw_utils::parse_reply_instantiate_data` reads them. It reads a length into a
/// machine word, so what it makes of an overlong one depends on how many bits that
/// has.
pub uninterp spec fn reply_address(data: Seq<u8>, word_bits: u32) -> Option<Seq<char>>;

/// `cw_utils::parse_reply_instantiate_data` on a report with this result; only the
/// address is kept. Claims that there is none if the call failed or returned no
/// bytes, and that it otherwise depends on the bytes and the width of a machine
/// word alone.
#[verifier::external_body]
pub(crate) fn parse_reply_address(id: u64, result: Result<Option<Vec<u8>>, String>) -> (r: Option<
    String,
>)
    ensures
        match result {
            Ok(Some(data)) => r.deep_view() == reply_address(data@, usize::BITS),
            _ => r is None,
        },
{
    let result = match result {
        Ok(data) => cosmwasm_std::SubMsgResult::Ok(cosmwasm_std::SubMsgResponse {
            events: vec![],
            data: data.map(cosmwasm_std::Binary),
        }),
        Err(error) => cosmwasm_std::SubMsgResult::Err(error),
    };
    match cw_utils::parse_reply_instantiate_data(cosmwasm_std::Reply { id, result }) {
        Ok(response) => Some(response.contract_address),
        Err(_) => None,
    }
}

/// A time in nanoseconds as text: the whole seconds, a point and nine decimals.
pub open spec fn seconds_text(nanos: u64) -> Seq<char> {
    decimal((nanos / 1_000_000_000) as nat).push('.') + padded((nanos % 1_000_000_000) as nat, 9)
}

/// The text of a `cosmwasm_std::Timestamp`. Claims that it is what `seconds_text`
/// says.
#[verifier::external_body]
pub(crate) fn timestamp_text(nanos: u64) -> (text: String)
    ensures
        text@ == seconds_text(nanos),
{
    cosmwasm_std::Timestamp::from_nanos(nanos).to_string()
}

} // verus!
