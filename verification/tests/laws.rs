use token_swap::error::ContractError;
use token_swap::liquidity::{execute_add_liquidity, execute_remove_liquidity};
use token_swap::msg::TokenSelect;
use token_swap::state::{Store, Token};
use token_swap::swap::execute_swap;
use token_swap::types::{
    Addr, BlockInfo, Coin, ContractInfo, Denom, Env, MessageInfo, Timestamp,
};

const DENOM: &str = "udenom";

fn env() -> Env {
    Env {
        block: BlockInfo {
            height: 100,
            time: Timestamp::from_nanos(5_000),
            chain_id: "chain".to_string(),
        },
        contract: ContractInfo { address: Addr::unchecked("pool") },
    }
}

fn info(base: u128) -> MessageInfo {
    MessageInfo {
        sender: Addr::unchecked("alice"),
        funds: vec![Coin { denom: DENOM.to_string(), amount: base }],
    }
}

fn pool(base_reserve: u128, quote_reserve: u128) -> Store {
    Store {
        base_token: Some(Token { reserve: base_reserve, denom: Denom::Native(DENOM.to_string()) }),
        quote_token: Some(Token {
            reserve: quote_reserve,
            denom: Denom::Cw20(Addr::unchecked("quote")),
        }),
        lp_token: Some(Addr::unchecked("shares")),
    }
}

fn reserves(store: &Store) -> (u128, u128) {
    (store.base_token.as_ref().unwrap().reserve, store.quote_token.as_ref().unwrap().reserve)
}

// Sells `sold` base and gives the quote paid out.
fn sell(store: &mut Store, sold: u128) -> Result<u128, ContractError> {
    let (_, before) = reserves(store);
    execute_swap(
        &env(),
        store,
        &info(sold),
        sold,
        TokenSelect::Base,
        0,
        &Addr::unchecked("alice"),
        None,
    )?;
    Ok(before - reserves(store).1)
}

// Buys `bought` base for at most `max` quote and gives the quote paid.
fn buy(store: &mut Store, bought: u128, max: u128) -> Result<u128, ContractError> {
    let (_, before) = reserves(store);
    execute_swap(
        &env(),
        store,
        &info(0),
        max,
        TokenSelect::Quote,
        bought,
        &Addr::unchecked("alice"),
        None,
    )?;
    Ok(reserves(store).1 - before)
}

#[test]
fn sale_never_lowers_the_product_of_the_reserves() {
    for (b, q) in [(100_000u128, 100_000u128), (1, 1), (7, 1_000_003), (1_000_003, 7), (0, 50)] {
        for sold in [0u128, 1, 2, 333, 334, 10_000, 999_983] {
            let mut store = pool(b, q);
            let paid_out = match sell(&mut store, sold) {
                Ok(out) => out,
                Err(_) => continue,
            };
            let (b1, q1) = reserves(&store);
            assert_eq!(b1, b + sold);
            assert_eq!(q1, q - paid_out);
            assert!(b1 * q1 >= b * q, "sale of {sold} at ({b}, {q})");
            let gross = q * sold / (b + sold);
            if gross * 3 / 1000 > 0 {
                assert!(b1 * q1 > b * q, "sale of {sold} at ({b}, {q})");
            }
        }
    }
}

#[test]
fn purchase_that_pays_a_fee_raises_the_product_of_the_reserves() {
    for (b, q) in [(100_000u128, 100_000u128), (110_000, 90_937), (1_000, 5_000_000)] {
        for bought in [1u128, 10, 100, 999] {
            let net = q * bought / (b - bought);
            if net * 3 / 1000 == 0 {
                continue;
            }
            let mut store = pool(b, q);
            let paid = buy(&mut store, bought, u128::MAX).unwrap();
            assert_eq!(paid, net + net * 3 / 1000);
            let (b1, q1) = reserves(&store);
            assert_eq!((b1, q1), (b - bought, q + paid));
            assert!(b1 * q1 > b * q, "purchase of {bought} at ({b}, {q})");
        }
    }
}

#[test]
fn purchase_with_an_exact_price_and_no_fee_keeps_the_product() {
    // 30 * 10 / (40 - 10) = 10 without remainder, and no fee on 10
    let mut store = pool(40, 30);
    assert_eq!(buy(&mut store, 10, 10), Ok(10));
    assert_eq!(reserves(&store), (30, 40));
}

#[test]
fn purchase_without_fee_gives_the_remainder_away() {
    // 19 * 104 / 996 = 1 with remainder 980, and no fee on 1
    let mut store = pool(1100, 19);
    assert_eq!(buy(&mut store, 104, 1), Ok(1));
    let (b1, q1) = reserves(&store);
    assert_eq!((b1, q1), (996, 20));
    assert_eq!(b1 * q1, 1100 * 19 - 980);
}

#[test]
fn round_trip_after_a_sale_that_paid_a_fee_yields_no_more_than_was_sold() {
    for (b, q) in [(100_000u128, 100_000u128), (5_000, 900_000), (900_000, 500_000)] {
        for sold in [1_000u128, 10_000, 77_777] {
            let mut store = pool(b, q);
            let received = sell(&mut store, sold).unwrap();
            assert!(q * sold / (b + sold) >= 334);
            let after_sale = reserves(&store);
            let affordable = |bought: u128| {
                let mut trial = pool(after_sale.0, after_sale.1);
                buy(&mut trial, bought, received).is_ok()
            };
            // nothing over what was sold can be bought back
            for bought in (sold + 1)..=(sold + 300) {
                assert!(!affordable(bought), "sold {sold} at ({b}, {q}), bought back {bought}");
            }
            // and most of it can: the two fees take less than one part in a hundred
            assert!(affordable(sold - sold / 100));
        }
    }
}

#[test]
fn round_trip_without_fee_can_yield_more_than_was_sold() {
    // 20 * 100 / 1100 = 1, no fee; then 19 * 104 / 996 = 1, no fee
    let mut store = pool(1000, 20);
    let received = sell(&mut store, 100).unwrap();
    assert_eq!(received, 1);
    assert_eq!(reserves(&store), (1100, 19));
    assert_eq!(buy(&mut store, 104, received), Ok(1));
    assert_eq!(reserves(&store), (996, 20));
}

#[test]
fn redeem_then_deposit_restores_the_pool_where_nothing_is_rounded() {
    let (b, q, supply) = (1000u128, 3000u128, 400u128);
    for redeemed in [4u128, 100, 200, 396] {
        let mut store = pool(b, q);
        execute_remove_liquidity(&mut store, &info(0), &env(), supply, redeemed, redeemed, 0, 0, None)
            .unwrap();
        let (b1, q1) = reserves(&store);
        let (base_out, quote_out) = (b - b1, q - q1);
        assert_eq!(base_out * supply, redeemed * b);
        assert_eq!(quote_out * supply, redeemed * q);

        let response = execute_add_liquidity(
            &mut store,
            &info(base_out),
            &env(),
            supply - redeemed,
            base_out,
            quote_out,
            None,
        )
        .unwrap();
        assert_eq!(reserves(&store), (b, q));
        assert_eq!(
            response.attributes[2].value,
            token_swap::effects::AttributeValue::Amount(redeemed)
        );
    }
}

#[test]
fn redeem_then_deposit_never_leaves_more_than_before() {
    let (b, q, supply) = (1000u128, 1000u128, 997u128);
    for redeemed in [1u128, 10, 150, 500, 996] {
        let mut store = pool(b, q);
        execute_remove_liquidity(&mut store, &info(0), &env(), supply, redeemed, redeemed, 0, 0, None)
            .unwrap();
        let (b1, q1) = reserves(&store);
        let (base_out, quote_out) = (b - b1, q - q1);
        let response = match execute_add_liquidity(
            &mut store,
            &info(base_out),
            &env(),
            supply - redeemed,
            base_out,
            quote_out,
            None,
        ) {
            Ok(response) => response,
            Err(_) => continue,
        };
        let (b2, q2) = reserves(&store);
        assert_eq!(b2, b);
        assert!(q2 <= q);
        match response.attributes[2].value {
            token_swap::effects::AttributeValue::Amount(minted) => assert!(minted <= redeemed),
            _ => panic!("no amount"),
        }
    }
}

#[test]
fn redeem_then_deposit_can_lose_more_than_one_unit_to_rounding() {
    // 150 * 10 / 1000 = 1 base and 150 quote come out; one base then mints
    // 1 * 850 / 9 = 94 shares and takes 1 * 850 / 9 = 94 quote
    let mut store = pool(10, 1000);
    execute_remove_liquidity(&mut store, &info(0), &env(), 1000, 150, 150, 0, 0, None).unwrap();
    assert_eq!(reserves(&store), (9, 850));
    let response =
        execute_add_liquidity(&mut store, &info(1), &env(), 850, 1, 150, None).unwrap();
    assert_eq!(reserves(&store), (10, 944));
    assert_eq!(response.attributes[2].value, token_swap::effects::AttributeValue::Amount(94));
}

#[test]
fn redeeming_everything_and_depositing_again_starts_the_pool_afresh() {
    let mut store = pool(100, 300);
    execute_remove_liquidity(&mut store, &info(0), &env(), 50, 50, 50, 0, 0, None).unwrap();
    assert_eq!(reserves(&store), (0, 0));
    // the first provider pays as much quote as base, whatever the price was
    let response = execute_add_liquidity(&mut store, &info(100), &env(), 0, 100, 300, None).unwrap();
    assert_eq!(reserves(&store), (100, 100));
    assert_eq!(response.attributes[2].value, token_swap::effects::AttributeValue::Amount(100));
}

#[test]
fn rounding_loss_of_redeem_then_deposit_is_told_by_the_remainders() {
    let cases: [(u128, u128, u128, u128); 8] = [
        // base reserve, quote reserve, share supply, shares redeemed
        (10, 1000, 1000, 150),
        (1000, 1000, 997, 10),
        (1000, 1000, 997, 500),
        (1000, 3000, 400, 100),
        (1000, 10, 1000, 500),
        (123_456, 654_321, 1_000, 1),
        (123_456, 654_321, 1_000, 999),
        (7, 7, 3, 1),
    ];
    let mut within_one = 0;
    let mut beyond_one = 0;
    for (b, q, supply, redeemed) in cases {
        let mut store = pool(b, q);
        execute_remove_liquidity(&mut store, &info(0), &env(), supply, redeemed, redeemed, 0, 0, None)
            .unwrap();
        let (b1, q1) = reserves(&store);
        let (base_out, quote_out) = (b - b1, q - q1);
        let response = match execute_add_liquidity(
            &mut store,
            &info(base_out),
            &env(),
            supply - redeemed,
            base_out,
            quote_out,
            None,
        ) {
            Ok(response) => response,
            Err(_) => continue,
        };
        let minted = match response.attributes[2].value {
            token_swap::effects::AttributeValue::Amount(minted) => minted,
            _ => panic!("no amount"),
        };
        let (_, q2) = reserves(&store);

        let share_short = redeemed * b - supply * base_out <= b1;
        assert_eq!(minted + 1 >= redeemed, share_short, "shares at {:?}", (b, q, supply, redeemed));
        let quote_short = (quote_out * b) as i128 - (base_out * q) as i128 <= b1 as i128;
        assert_eq!(q2 + 1 >= q, quote_short, "quote at {:?}", (b, q, supply, redeemed));
        if share_short && quote_short {
            within_one += 1;
        } else {
            beyond_one += 1;
        }
    }
    assert!(within_one > 0);
    assert!(beyond_one > 0);
}
