//! Fees, half of which are burned.

use crate::chain::{result_view, Coin, CoinView, CosmosMsg, CosmosMsgView, MessageInfo};
use crate::error::{FeeError, FeeErrorView};
use crate::outside::{must_pay, percent_of, required_payment};
use vstd::prelude::*;

verus! {

/// The denomination that fees and prices are in.
pub const NATIVE_DENOM: &'static str = "ustars";

/// The share of a fee that is burned, in percent.
pub const FEE_BURN_PERCENT: u64 = 50;

/// One coin of a denomination.
pub open spec fn coins_view(amount: u128, denom: Seq<char>) -> Seq<CoinView> {
    seq![CoinView { denom, amount }]
}

/// Lists one coin of a denomination.
pub fn coins(amount: u128, denom: &str) -> (list: Vec<Coin>)
    ensures
        list.deep_view() == coins_view(amount, denom@),
{
    let mut list: Vec<Coin> = Vec::new();
    list.push(Coin { denom: denom.to_owned(), amount });
    assert(list.deep_view() =~= coins_view(amount, denom@));
    list
}

/// Copies a list of coins.
pub fn clone_coins(list: &Vec<Coin>) -> (copy: Vec<Coin>)
    ensures
        copy.deep_view() == list.deep_view(),
{
    let mut copy: Vec<Coin> = Vec::new();
    for i in 0..list.len()
        invariant
            copy@.len() == i,
            forall|j: int|
                0 <= j < i ==> (#[trigger] copy@[j]).deep_view() == list@[j].deep_view(),
    {
        copy.push(list[i].clone());
    }
    assert(copy.deep_view() =~= list.deep_view());
    copy
}

/// The part of a fee that is burned.
pub open spec fn burned(fee: u128) -> u128 {
    ((fee * FEE_BURN_PERCENT) / 100) as u128
}

/// The messages that dispose of a fee: one part is burned, the rest goes to the
/// community pool.
pub open spec fn fair_burn_view(fee: u128) -> Seq<CosmosMsgView> {
    seq![
        CosmosMsgView::Burn { amount: coins_view(burned(fee), NATIVE_DENOM@) },
        CosmosMsgView::FundCommunityPool {
            amount: coins_view((fee - burned(fee)) as u128, NATIVE_DENOM@),
        },
    ]
}

/// Disposes of a fee.
pub fn fair_burn(fee: u128) -> (msgs: Vec<CosmosMsg>)
    ensures
        msgs.deep_view() == fair_burn_view(fee),
{
    let burn = percent_of(fee, FEE_BURN_PERCENT);
    let mut msgs: Vec<CosmosMsg> = Vec::new();
    msgs.push(CosmosMsg::Burn { amount: coins(burn, NATIVE_DENOM) });
    msgs.push(CosmosMsg::FundCommunityPool { amount: coins(fee - burn, NATIVE_DENOM) });
    assert(msgs.deep_view() =~= fair_burn_view(fee));
    msgs
}

/// How a fee is taken: from one coin of the native denomination that covers it.
pub open spec fn fee_taken(funds: Seq<CoinView>, fee: u128) -> Result<
    Seq<CosmosMsgView>,
    FeeErrorView,
> {
    match required_payment(funds, NATIVE_DENOM@) {
        Err(e) => Err(FeeErrorView::Payment(e)),
        Ok(paid) => if paid < fee {
            Err(FeeErrorView::InsufficientFee(fee, paid))
        } else {
            Ok(fair_burn_view(fee))
        },
    }
}

/// Takes a fee from the funds that were sent and disposes of it.
pub fn checked_fair_burn(info: &MessageInfo, fee: u128) -> (r: Result<Vec<CosmosMsg>, FeeError>)
    ensures
        result_view(r) == fee_taken(info.funds.deep_view(), fee),
{
    match must_pay(&info.funds, NATIVE_DENOM) {
        Err(e) => Err(FeeError::Payment(e)),
        Ok(paid) => if paid < fee {
            Err(FeeError::InsufficientFee(fee, paid))
        } else {
            Ok(fair_burn(fee))
        },
    }
}

} // verus!
