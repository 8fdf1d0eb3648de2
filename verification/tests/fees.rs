use minter::chain::{Coin, CosmosMsg, MessageInfo};
use minter::error::{FeeError, PaymentError};
use minter::fees::{checked_fair_burn, clone_coins, coins, fair_burn};

fn coin(amount: u128, denom: &str) -> Coin {
    Coin { denom: denom.to_string(), amount }
}

fn info(funds: Vec<Coin>) -> MessageInfo {
    MessageInfo { sender: "payer".to_string(), funds }
}

fn disposed(burned: u128, pooled: u128) -> Vec<CosmosMsg> {
    vec![
        CosmosMsg::Burn { amount: vec![coin(burned, "ustars")] },
        CosmosMsg::FundCommunityPool { amount: vec![coin(pooled, "ustars")] },
    ]
}

#[test]
fn half_of_a_fee_is_burned() {
    assert_eq!(fair_burn(1000), disposed(500, 500));
    assert_eq!(fair_burn(7), disposed(3, 4));
    assert_eq!(fair_burn(0), disposed(0, 0));
    assert_eq!(fair_burn(u128::MAX), disposed(u128::MAX / 2, u128::MAX / 2 + 1));
}

#[test]
fn fee_is_covered() {
    assert_eq!(checked_fair_burn(&info(coins(7, "ustars")), 7), Ok(disposed(3, 4)));
    assert_eq!(checked_fair_burn(&info(coins(900, "ustars")), 7), Ok(disposed(3, 4)));
}

#[test]
fn fee_is_not_covered() {
    assert_eq!(
        checked_fair_burn(&info(coins(6, "ustars")), 7),
        Err(FeeError::InsufficientFee(7, 6))
    );
    assert_eq!(
        checked_fair_burn(&info(vec![]), 0),
        Err(FeeError::Payment(PaymentError::NoFunds {}))
    );
    assert_eq!(
        checked_fair_burn(&info(coins(0, "ustars")), 0),
        Err(FeeError::Payment(PaymentError::NoFunds {}))
    );
    assert_eq!(
        checked_fair_burn(&info(coins(7, "uatom")), 7),
        Err(FeeError::Payment(PaymentError::MissingDenom("ustars".to_string())))
    );
    assert_eq!(
        checked_fair_burn(&info(vec![coin(7, "ustars"), coin(7, "uatom")]), 7),
        Err(FeeError::Payment(PaymentError::MultipleDenoms {}))
    );
}

#[test]
fn coins_are_copied() {
    let list = vec![coin(7, "ustars"), coin(8, "uatom")];
    assert_eq!(clone_coins(&list), list);
}
