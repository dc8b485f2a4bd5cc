//! The native funds that come with a message.

use crate::error::ContractError;
use crate::types::{coin_views, Coin, CoinView};
use crate::uint128::uint128_checked_add;
use vstd::prelude::*;

verus! {

/// The sum of the amounts of the coins in `coins` that are called `denom`.
pub open spec fn funds_total(coins: Seq<CoinView>, denom: Seq<char>) -> nat
    decreases coins.len(),
{
    if coins.len() == 0 {
        0
    } else {
        funds_total(coins.drop_last(), denom) + if coins.last().denom == denom {
            coins.last().amount as nat
        } else {
            0
        }
    }
}

/// A longer list of coins holds at least as much of `denom` as its start.
pub proof fn lemma_funds_total_grows(coins: Seq<CoinView>, denom: Seq<char>, n: int)
    requires
        0 <= n <= coins.len(),
    ensures
        funds_total(coins.take(n), denom) <= funds_total(coins, denom),
    decreases coins.len(),
{
    if n == coins.len() {
        assert(coins.take(n) =~= coins);
    } else {
        assert(coins.drop_last().take(n) =~= coins.take(n));
        lemma_funds_total_grows(coins.drop_last(), denom, n);
    }
}

/// The coin that holds all of `denom` that is in `coins`, or `None` where the
/// sum does not fit in 128 bits.
pub fn get_amount_for_denom(coins: &Vec<Coin>, denom: &str) -> (r: Option<Coin>)
    ensures
        (match r {
            Some(c) => Some(c@),
            None => None,
        }) == if funds_total(coin_views(coins@), denom@) <= u128::MAX {
            Some(
                CoinView {
                    denom: denom@,
                    amount: funds_total(coin_views(coins@), denom@) as u128,
                },
            )
        } else {
            None
        },
{
    let ghost all = coin_views(coins@);
    let wanted: String = denom.to_owned();
    let mut amount: u128 = 0;
    let mut i: usize = 0;
    while i < coins.len()
        invariant
            0 <= i <= coins.len(),
            wanted@ == denom@,
            all == coin_views(coins@),
            amount == funds_total(all.take(i as int), denom@),
        decreases coins.len() - i,
    {
        proof {
            assert(all.take(i + 1).drop_last() =~= all.take(i as int));
            assert(all.take(i + 1).last() == coins@[i as int]@);
            lemma_funds_total_grows(all, denom@, i + 1);
        }
        if coins[i].denom == wanted {
            match uint128_checked_add(amount, coins[i].amount) {
                Ok(sum) => {
                    amount = sum;
                },
                Err(_) => {
                    return None;
                },
            }
        }
        i += 1;
    }
    proof {
        assert(all.take(i as int) =~= all);
    }
    Some(Coin { amount, denom: wanted })
}

/// Accepts the funds where they hold exactly `given_amount` of `denom_str`,
/// and refuses them with `InsufficientFunds` where they hold less or more.
pub fn validate_base_amount(coins: &Vec<Coin>, given_amount: u128, denom_str: &str) -> (r: Result<
    (),
    ContractError,
>)
    ensures
        r == if funds_total(coin_views(coins@), denom_str@) == given_amount {
            Ok::<(), ContractError>(())
        } else {
            Err::<(), ContractError>(ContractError::InsufficientFunds)
        },
{
    match get_amount_for_denom(coins, denom_str) {
        Some(actual) => {
            if actual.amount != given_amount {
                return Err(ContractError::InsufficientFunds);
            }
            Ok(())
        },
        None => Err(ContractError::InsufficientFunds),
    }
}

} // verus!
