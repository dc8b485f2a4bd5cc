//! What holds of the pool over every input: the product of the reserves
//! under swaps, the round trip, the first deposit, and a redemption
//! followed by a deposit.
//!
//! All divisions round down, in the caller's favour where the caller pays
//! and against the caller where the caller is paid. Where a law needs more
//! than that the operations succeed, it says so in its `requires`.

use crate::error::ContractError;
use crate::expiration::Expiration;
use crate::liquidity::{
    add_liquidity_outcome,
    deposit_outcome,
    remove_liquidity_outcome,
    withdrawal_outcome,
    Deposit,
};
use crate::msg::TokenSelect;
use crate::pricing::{
    lemma_quote_for_base_in_bounded,
    quote_for_base_in,
    quote_for_base_out,
    swap_fee,
};
use crate::state::{loaded_pair, StoreView};
use crate::swap::{swap_outcome, trade_outcome};
use crate::effects::EffectView;
use crate::expiration::expired;
use crate::funds::funds_total;
use crate::types::{EnvView, MessageInfoView};
use vstd::arithmetic::div_mod::{
    lemma_div_is_ordered,
    lemma_div_multiples_vanish,
    lemma_fundamental_div_mod,
    lemma_mod_pos_bound,
};
use vstd::prelude::*;

verus! {

/// Division with remainder: `n / d` is the largest multiple of `d` that
/// `n` holds.
pub proof fn lemma_floor(n: int, d: int)
    requires
        0 <= n,
        0 < d,
    ensures
        d * (n / d) + n % d == n,
        0 <= n % d < d,
        0 <= n / d,
        d * (n / d) <= n,
{
    lemma_fundamental_div_mod(n, d);
    lemma_mod_pos_bound(n, d);
    assert(0 <= n / d) by (nonlinear_arith)
        requires
            d * (n / d) + n % d == n,
            n % d < d,
            0 <= n,
            0 < d,
    ;
}

/// A quotient is at least `k` where the dividend holds `k` times the
/// divisor.
pub proof fn lemma_floor_at_least(n: int, d: int, k: int)
    requires
        0 < d,
        k * d <= n,
    ensures
        k <= n / d,
{
    lemma_div_is_ordered(k * d, n, d);
    lemma_div_multiples_vanish(k, d);
    assert(k * d == d * k) by (nonlinear_arith);
}

/// The fee that a swap leaves in the quote reserve.
pub open spec fn fee_paid(
    input_token: TokenSelect,
    input_amount: u128,
    output_amount: u128,
    base_reserve: u128,
    quote_reserve: u128,
) -> nat {
    match input_token {
        TokenSelect::Base => swap_fee(
            quote_for_base_in(input_amount as nat, base_reserve as nat, quote_reserve as nat),
        ),
        TokenSelect::Quote => swap_fee(
            quote_for_base_out(output_amount as nat, base_reserve as nat, quote_reserve as nat),
        ),
    }
}

/// What rounding down takes off the price of a purchase of `output_amount`
/// base: the remainder of `Q b / (B - b)`, in units of the product of the
/// reserves.
pub open spec fn purchase_remainder(output_amount: u128, base_reserve: u128, quote_reserve: u128) -> int {
    (quote_reserve * output_amount) % (base_reserve - output_amount)
}

/// A swap that succeeds does not lower the product of the reserves, and
/// raises it where it pays a fee.
///
/// A sale of base always keeps to this. A purchase of base keeps to it
/// where it pays a fee or its price needs no rounding.
pub proof fn law_trade_keeps_product(
    input_token: TokenSelect,
    input_amount: u128,
    output_amount: u128,
    base_reserve: u128,
    quote_reserve: u128,
)
    requires
        trade_outcome(input_token, input_amount, output_amount, base_reserve, quote_reserve) is Ok,
        input_token is Quote ==> fee_paid(
            input_token,
            input_amount,
            output_amount,
            base_reserve,
            quote_reserve,
        ) > 0 || purchase_remainder(output_amount, base_reserve, quote_reserve) == 0,
    ensures
        ({
            let t = trade_outcome(
                input_token,
                input_amount,
                output_amount,
                base_reserve,
                quote_reserve,
            )->Ok_0;
            &&& t.base_reserve * t.quote_reserve >= base_reserve * quote_reserve
            &&& fee_paid(input_token, input_amount, output_amount, base_reserve, quote_reserve) > 0
                ==> t.base_reserve * t.quote_reserve > base_reserve * quote_reserve
        }),
{
    let t = trade_outcome(input_token, input_amount, output_amount, base_reserve, quote_reserve)->Ok_0;
    let b = base_reserve as int;
    let q = quote_reserve as int;
    match input_token {
        TokenSelect::Base => {
            let x = input_amount as int;
            let d = b + x;
            let gross = (q * x) / d;
            let fee = gross * 3 / 1000;
            lemma_quote_for_base_in_bounded(x as nat, b as nat, q as nat);
            lemma_floor(q * x, d);
            assert(t.base_reserve == d);
            assert(t.quote_reserve == q - gross + fee);
            assert(d * (q - gross + fee) == b * q + (q * x - d * gross) + d * fee)
                by (nonlinear_arith)
                requires
                    d == b + x,
            ;
            assert(d * fee >= 0 && (fee > 0 ==> d * fee > 0)) by (nonlinear_arith)
                requires
                    d > 0,
                    fee >= 0,
            ;
        },
        TokenSelect::Quote => {
            let y = output_amount as int;
            let d = b - y;
            let net = (q * y) / d;
            let fee = net * 3 / 1000;
            assert(q * y >= 0) by (nonlinear_arith)
                requires
                    q >= 0,
                    y >= 0,
            ;
            lemma_floor(q * y, d);
            assert(t.base_reserve == d);
            assert(t.quote_reserve == q + net + fee);
            assert(d * (q + net + fee) == b * q - (q * y - d * net) + d * fee) by (nonlinear_arith)
                requires
                    d == b - y,
            ;
            assert(d * fee >= 0 && (fee > 0 ==> d * fee >= d)) by (nonlinear_arith)
                requires
                    d > 0,
                    fee >= 0,
            ;
        },
    }
}

/// A purchase of base that pays no fee and whose price is rounded lowers
/// the product of the reserves: the pool gives up the remainder.
pub proof fn law_purchase_without_fee_loses_remainder(
    input_amount: u128,
    output_amount: u128,
    base_reserve: u128,
    quote_reserve: u128,
)
    requires
        trade_outcome(
            TokenSelect::Quote,
            input_amount,
            output_amount,
            base_reserve,
            quote_reserve,
        ) is Ok,
        fee_paid(TokenSelect::Quote, input_amount, output_amount, base_reserve, quote_reserve)
            == 0,
    ensures
        ({
            let t = trade_outcome(
                TokenSelect::Quote,
                input_amount,
                output_amount,
                base_reserve,
                quote_reserve,
            )->Ok_0;
            t.base_reserve * t.quote_reserve == base_reserve * quote_reserve - purchase_remainder(
                output_amount,
                base_reserve,
                quote_reserve,
            )
        }),
{
    let t = trade_outcome(
        TokenSelect::Quote,
        input_amount,
        output_amount,
        base_reserve,
        quote_reserve,
    )->Ok_0;
    let b = base_reserve as int;
    let q = quote_reserve as int;
    let y = output_amount as int;
    let d = b - y;
    let net = (q * y) / d;
    assert(q * y >= 0) by (nonlinear_arith)
        requires
            q >= 0,
            y >= 0,
    ;
    lemma_floor(q * y, d);
    assert(t.base_reserve == d);
    assert(t.quote_reserve == q + net);
    assert(d * (q + net) == b * q - (q * y - d * net)) by (nonlinear_arith)
        requires
            d == b - y,
    ;
}

/// The two reserves of a store that holds both tokens.
pub open spec fn reserves(store: StoreView) -> (u128, u128) {
    (store.base_token->Some_0.reserve, store.quote_token->Some_0.reserve)
}

/// The product of the two reserves of a store that holds both tokens.
pub open spec fn reserve_product(store: StoreView) -> int {
    store.base_token->Some_0.reserve * store.quote_token->Some_0.reserve
}

/// A swap that `execute_swap` carries out does not lower the product of the
/// stored reserves, and raises it where it pays a fee.
///
/// A sale of base always keeps to this. A purchase of base keeps to it
/// where it pays a fee or its price needs no rounding.
pub proof fn law_swap_keeps_product(
    store: StoreView,
    info: MessageInfoView,
    env: EnvView,
    input_amount: u128,
    input_token: TokenSelect,
    output_amount: u128,
    recipient: Seq<char>,
    expiration: Option<Expiration>,
)
    requires
        swap_outcome(
            store,
            info,
            env,
            input_amount,
            input_token,
            output_amount,
            recipient,
            expiration,
        ) is Ok,
        input_token is Quote ==> fee_paid(
            input_token,
            input_amount,
            output_amount,
            store.base_token->Some_0.reserve,
            store.quote_token->Some_0.reserve,
        ) > 0 || purchase_remainder(
            output_amount,
            store.base_token->Some_0.reserve,
            store.quote_token->Some_0.reserve,
        ) == 0,
    ensures
        ({
            let after = swap_outcome(
                store,
                info,
                env,
                input_amount,
                input_token,
                output_amount,
                recipient,
                expiration,
            )->Ok_0.store;
            &&& reserve_product(after) >= reserve_product(store)
            &&& fee_paid(
                input_token,
                input_amount,
                output_amount,
                store.base_token->Some_0.reserve,
                store.quote_token->Some_0.reserve,
            ) > 0 ==> reserve_product(after) > reserve_product(store)
        }),
{
    law_trade_keeps_product(
        input_token,
        input_amount,
        output_amount,
        store.base_token->Some_0.reserve,
        store.quote_token->Some_0.reserve,
    );
}

/// In a round trip that buys back more base than was sold, the purchase
/// costs, before its fee, at least what the sale paid out before its fee.
proof fn lemma_round_trip_price(
    sold: u128,
    min_output: u128,
    bought: u128,
    base_reserve: u128,
    quote_reserve: u128,
)
    requires
        trade_outcome(TokenSelect::Base, sold, min_output, base_reserve, quote_reserve) is Ok,
        ({
            let sale = trade_outcome(
                TokenSelect::Base,
                sold,
                min_output,
                base_reserve,
                quote_reserve,
            )->Ok_0;
            trade_outcome(
                TokenSelect::Quote,
                sale.output_amount,
                bought,
                sale.base_reserve,
                sale.quote_reserve,
            ) is Ok
        }),
        bought > sold,
    ensures
        ({
            let sale = trade_outcome(
                TokenSelect::Base,
                sold,
                min_output,
                base_reserve,
                quote_reserve,
            )->Ok_0;
            quote_for_base_out(
                bought as nat,
                sale.base_reserve as nat,
                sale.quote_reserve as nat,
            ) >= quote_for_base_in(sold as nat, base_reserve as nat, quote_reserve as nat)
        }),
{
    let sale = trade_outcome(TokenSelect::Base, sold, min_output, base_reserve, quote_reserve)->Ok_0;
    let b = base_reserve as int;
    let q = quote_reserve as int;
    let x = sold as int;
    let y = bought as int;
    let d1 = b + x;
    let g1 = (q * x) / d1;
    let fee1 = g1 * 3 / 1000;
    lemma_quote_for_base_in_bounded(x as nat, b as nat, q as nat);
    lemma_floor(q * x, d1);
    let q1 = q - g1 + fee1;
    assert(sale.base_reserve == d1);
    assert(sale.quote_reserve == q1);
    let d2 = d1 - y;
    assert(g1 * d2 <= q1 * y) by (nonlinear_arith)
        requires
            d1 * g1 <= q * x,
            q1 == q - g1 + fee1,
            d2 == d1 - y,
            y > x,
            x >= 0,
            q >= 0,
            fee1 >= 0,
    {
        assert(q1 * y == q * y - g1 * y + fee1 * y);
        assert(g1 * d2 == g1 * d1 - g1 * y);
        assert(q * y >= q * x);
        assert(fee1 * y >= 0);
    }
    lemma_floor_at_least(q1 * y, d2, g1);
}

/// Selling `sold` base and at once buying base back with no more than the
/// quote that the sale paid out yields at most `sold` base, where the sale
/// paid a fee.
pub proof fn law_round_trip_bound(
    sold: u128,
    min_output: u128,
    bought: u128,
    base_reserve: u128,
    quote_reserve: u128,
)
    requires
        trade_outcome(TokenSelect::Base, sold, min_output, base_reserve, quote_reserve) is Ok,
        ({
            let sale = trade_outcome(
                TokenSelect::Base,
                sold,
                min_output,
                base_reserve,
                quote_reserve,
            )->Ok_0;
            trade_outcome(
                TokenSelect::Quote,
                sale.output_amount,
                bought,
                sale.base_reserve,
                sale.quote_reserve,
            ) is Ok
        }),
        fee_paid(TokenSelect::Base, sold, min_output, base_reserve, quote_reserve) > 0,
    ensures
        bought <= sold,
{
    if bought > sold {
        lemma_round_trip_price(sold, min_output, bought, base_reserve, quote_reserve);
    }
}

/// A round trip yields more base than was sold only where neither leg pays
/// a fee and the purchase costs exactly what the sale paid out.
pub proof fn law_round_trip_gain_pays_no_fee(
    sold: u128,
    min_output: u128,
    bought: u128,
    base_reserve: u128,
    quote_reserve: u128,
)
    requires
        trade_outcome(TokenSelect::Base, sold, min_output, base_reserve, quote_reserve) is Ok,
        ({
            let sale = trade_outcome(
                TokenSelect::Base,
                sold,
                min_output,
                base_reserve,
                quote_reserve,
            )->Ok_0;
            trade_outcome(
                TokenSelect::Quote,
                sale.output_amount,
                bought,
                sale.base_reserve,
                sale.quote_reserve,
            ) is Ok
        }),
        bought > sold,
    ensures
        ({
            let sale = trade_outcome(
                TokenSelect::Base,
                sold,
                min_output,
                base_reserve,
                quote_reserve,
            )->Ok_0;
            let purchase = trade_outcome(
                TokenSelect::Quote,
                sale.output_amount,
                bought,
                sale.base_reserve,
                sale.quote_reserve,
            )->Ok_0;
            &&& fee_paid(TokenSelect::Base, sold, min_output, base_reserve, quote_reserve) == 0
            &&& fee_paid(
                TokenSelect::Quote,
                sale.output_amount,
                bought,
                sale.base_reserve,
                sale.quote_reserve,
            ) == 0
            &&& purchase.input_amount == sale.output_amount
        }),
{
    lemma_round_trip_price(sold, min_output, bought, base_reserve, quote_reserve);
}

/// While no share exists, a deposit of `amount` base mints `amount` shares
/// and takes `amount` quote, whatever bound of at least `amount` the caller
/// puts on the quote, as long as the reserves can take the deposit.
pub proof fn law_first_deposit(
    amount: u128,
    max_quote_token_amount: u128,
    base_reserve: u128,
    quote_reserve: u128,
)
    requires
        max_quote_token_amount >= amount,
        base_reserve + amount <= u128::MAX,
        quote_reserve + amount <= u128::MAX,
    ensures
        deposit_outcome(amount, max_quote_token_amount, 0, base_reserve, quote_reserve) == Ok::<
            Deposit,
            ContractError,
        >(
            Deposit {
                liquidity: amount,
                quote_amount: amount,
                base_reserve: (base_reserve + amount) as u128,
                quote_reserve: (quote_reserve + amount) as u128,
            },
        ),
{
}

/// While no share exists, `execute_add_liquidity` succeeds on a message
/// that has not expired and brings exactly `amount > 0` base, whatever
/// bound of at least `amount` the caller puts on the quote, as long as the
/// pool is set up and its reserves can take the deposit. It has `amount`
/// quote moved in and `amount` shares minted, and both reserves grow by
/// `amount`.
pub proof fn law_first_add_liquidity(
    store: StoreView,
    info: MessageInfoView,
    env: EnvView,
    amount: u128,
    max_quote_token_amount: u128,
    expiration: Option<Expiration>,
)
    requires
        amount > 0,
        max_quote_token_amount >= amount,
        !expired(expiration, env.block),
        loaded_pair(store, true) is Ok,
        funds_total(info.funds, loaded_pair(store, true)->Ok_0.base_denom) == amount,
        store.base_token->Some_0.reserve + amount <= u128::MAX,
        store.quote_token->Some_0.reserve + amount <= u128::MAX,
    ensures
        ({
            let outcome = add_liquidity_outcome(
                store,
                info,
                env,
                0,
                amount,
                max_quote_token_amount,
                expiration,
            );
            &&& outcome is Ok
            &&& outcome->Ok_0.store == store.with_reserves(
                (store.base_token->Some_0.reserve + amount) as u128,
                (store.quote_token->Some_0.reserve + amount) as u128,
            )
            &&& outcome->Ok_0.response.messages == seq![
                EffectView::Cw20TransferFrom {
                    contract_addr: store.quote_token->Some_0.denom->Cw20_0,
                    owner: info.sender,
                    recipient: env.contract_address,
                    amount,
                },
                EffectView::Cw20Mint {
                    contract_addr: store.lp_token->Some_0,
                    recipient: info.sender,
                    amount,
                },
            ]
        }),
{
    law_first_deposit(
        amount,
        max_quote_token_amount,
        store.base_token->Some_0.reserve,
        store.quote_token->Some_0.reserve,
    );
}

/// Redeeming `lp_amount` shares and at once depositing the base that came
/// out, with the quote that came out as the bound, brings back both
/// reserves and mints `lp_amount` shares again, where
///
/// - shares remain after the redemption and base came out,
/// - neither payout was rounded, and
/// - the product that the deposit forms fits in 128 bits.
pub proof fn law_redeem_then_deposit_restores(
    lp_amount: u128,
    min_base_token_output: u128,
    min_quote_token_output: u128,
    lp_balance: u128,
    lp_token_supply: u128,
    base_reserve: u128,
    quote_reserve: u128,
)
    requires
        withdrawal_outcome(
            lp_amount,
            min_base_token_output,
            min_quote_token_output,
            lp_balance,
            lp_token_supply,
            base_reserve,
            quote_reserve,
        ) is Ok,
        lp_amount < lp_token_supply,
        (lp_amount * base_reserve) % (lp_token_supply as int) == 0,
        (lp_amount * quote_reserve) % (lp_token_supply as int) == 0,
        ({
            let w = withdrawal_outcome(
                lp_amount,
                min_base_token_output,
                min_quote_token_output,
                lp_balance,
                lp_token_supply,
                base_reserve,
                quote_reserve,
            )->Ok_0;
            &&& w.base_amount > 0
            &&& w.base_amount * w.quote_reserve <= u128::MAX
        }),
    ensures
        ({
            let w = withdrawal_outcome(
                lp_amount,
                min_base_token_output,
                min_quote_token_output,
                lp_balance,
                lp_token_supply,
                base_reserve,
                quote_reserve,
            )->Ok_0;
            deposit_outcome(
                w.base_amount,
                w.quote_amount,
                (lp_token_supply - lp_amount) as u128,
                w.base_reserve,
                w.quote_reserve,
            ) == Ok::<Deposit, ContractError>(
                Deposit {
                    liquidity: lp_amount,
                    quote_amount: w.quote_amount,
                    base_reserve,
                    quote_reserve,
                },
            )
        }),
{
    let w = withdrawal_outcome(
        lp_amount,
        min_base_token_output,
        min_quote_token_output,
        lp_balance,
        lp_token_supply,
        base_reserve,
        quote_reserve,
    )->Ok_0;
    let l = lp_amount as int;
    let s = lp_token_supply as int;
    let b = base_reserve as int;
    let q = quote_reserve as int;
    let rest = s - l;
    let bo = w.base_amount as int;
    let qo = w.quote_amount as int;
    let b1 = w.base_reserve as int;
    let q1 = w.quote_reserve as int;
    assert(l * b >= 0 && l * q >= 0) by (nonlinear_arith)
        requires
            l >= 0,
            b >= 0,
            q >= 0,
    ;
    lemma_floor(l * b, s);
    lemma_floor(l * q, s);
    assert(s * bo == l * b);
    assert(s * qo == l * q);
    assert(b1 == b - bo);
    assert(q1 == q - qo);
    // What the deposit multiplies: the shares that remain, and the quote that remains.
    assert(bo * rest == l * b1) by (nonlinear_arith)
        requires
            s * bo == l * b,
            rest == s - l,
            b1 == b - bo,
    ;
    assert(b1 > 0) by (nonlinear_arith)
        requires
            bo * rest == l * b1,
            bo > 0,
            rest > 0,
            b1 >= 0,
    ;
    assert(l * b1 <= l * b) by (nonlinear_arith)
        requires
            l >= 0,
            b1 <= b,
    ;
    lemma_div_multiples_vanish(l, b1);
    assert(l * b1 == b1 * l) by (nonlinear_arith);
    assert(s * (bo * q) == s * (qo * b)) by (nonlinear_arith)
        requires
            s * bo == l * b,
            s * qo == l * q,
    ;
    assert(bo * q == qo * b) by (nonlinear_arith)
        requires
            s * (bo * q) == s * (qo * b),
            s > 0,
    ;
    assert(bo * q1 == qo * b1) by (nonlinear_arith)
        requires
            bo * q == qo * b,
            q1 == q - qo,
            b1 == b - bo,
    ;
    lemma_div_multiples_vanish(qo, b1);
    assert(qo * b1 == b1 * qo) by (nonlinear_arith);
}

/// Redeeming `lp_amount` shares and at once depositing the base that came
/// out, with the quote that came out as the bound, never leaves the caller
/// better off: where both succeed and shares remained in between, the base
/// reserve is what it was, the quote reserve is no larger, and no more than
/// `lp_amount` shares are minted.
pub proof fn law_redeem_then_deposit_never_gains(
    lp_amount: u128,
    min_base_token_output: u128,
    min_quote_token_output: u128,
    lp_balance: u128,
    lp_token_supply: u128,
    base_reserve: u128,
    quote_reserve: u128,
)
    requires
        withdrawal_outcome(
            lp_amount,
            min_base_token_output,
            min_quote_token_output,
            lp_balance,
            lp_token_supply,
            base_reserve,
            quote_reserve,
        ) is Ok,
        lp_amount < lp_token_supply,
        ({
            let w = withdrawal_outcome(
                lp_amount,
                min_base_token_output,
                min_quote_token_output,
                lp_balance,
                lp_token_supply,
                base_reserve,
                quote_reserve,
            )->Ok_0;
            deposit_outcome(
                w.base_amount,
                w.quote_amount,
                (lp_token_supply - lp_amount) as u128,
                w.base_reserve,
                w.quote_reserve,
            ) is Ok
        }),
    ensures
        ({
            let w = withdrawal_outcome(
                lp_amount,
                min_base_token_output,
                min_quote_token_output,
                lp_balance,
                lp_token_supply,
                base_reserve,
                quote_reserve,
            )->Ok_0;
            let d = deposit_outcome(
                w.base_amount,
                w.quote_amount,
                (lp_token_supply - lp_amount) as u128,
                w.base_reserve,
                w.quote_reserve,
            )->Ok_0;
            &&& d.base_reserve == base_reserve
            &&& d.quote_reserve <= quote_reserve
            &&& d.liquidity <= lp_amount
        }),
{
    let w = withdrawal_outcome(
        lp_amount,
        min_base_token_output,
        min_quote_token_output,
        lp_balance,
        lp_token_supply,
        base_reserve,
        quote_reserve,
    )->Ok_0;
    let l = lp_amount as int;
    let s = lp_token_supply as int;
    let b = base_reserve as int;
    let rest = s - l;
    let bo = w.base_amount as int;
    let b1 = w.base_reserve as int;
    assert(l * b >= 0) by (nonlinear_arith)
        requires
            l >= 0,
            b >= 0,
    ;
    lemma_floor(l * b, s);
    assert(s * bo <= l * b);
    assert(bo * rest <= l * b1) by (nonlinear_arith)
        requires
            s * bo <= l * b,
            rest == s - l,
            b1 == b - bo,
    ;
    assert(b1 > 0);
    lemma_div_is_ordered(bo * rest, l * b1, b1);
    lemma_div_multiples_vanish(l, b1);
    assert(l * b1 == b1 * l) by (nonlinear_arith);
}

/// What rounding costs the caller who redeems `lp_amount` shares and at
/// once deposits the base that came out, with the quote that came out as
/// the bound, where both succeed and shares remained in between.
///
/// With `b'` the base that stayed in the pool:
///
/// - the caller is at most one share short exactly where the remainder of
///   the base payout, `lp_amount * B - S * base_out`, is at most `b'`;
/// - the quote reserve is at most one unit short exactly where
///   `quote_out * B - base_out * Q` is at most `b'`.
pub proof fn law_redeem_then_deposit_loss(
    lp_amount: u128,
    min_base_token_output: u128,
    min_quote_token_output: u128,
    lp_balance: u128,
    lp_token_supply: u128,
    base_reserve: u128,
    quote_reserve: u128,
)
    requires
        withdrawal_outcome(
            lp_amount,
            min_base_token_output,
            min_quote_token_output,
            lp_balance,
            lp_token_supply,
            base_reserve,
            quote_reserve,
        ) is Ok,
        lp_amount < lp_token_supply,
        ({
            let w = withdrawal_outcome(
                lp_amount,
                min_base_token_output,
                min_quote_token_output,
                lp_balance,
                lp_token_supply,
                base_reserve,
                quote_reserve,
            )->Ok_0;
            deposit_outcome(
                w.base_amount,
                w.quote_amount,
                (lp_token_supply - lp_amount) as u128,
                w.base_reserve,
                w.quote_reserve,
            ) is Ok
        }),
    ensures
        ({
            let w = withdrawal_outcome(
                lp_amount,
                min_base_token_output,
                min_quote_token_output,
                lp_balance,
                lp_token_supply,
                base_reserve,
                quote_reserve,
            )->Ok_0;
            let d = deposit_outcome(
                w.base_amount,
                w.quote_amount,
                (lp_token_supply - lp_amount) as u128,
                w.base_reserve,
                w.quote_reserve,
            )->Ok_0;
            &&& d.liquidity >= lp_amount - 1 <==> lp_amount * base_reserve - lp_token_supply
                * w.base_amount <= w.base_reserve
            &&& d.quote_reserve >= quote_reserve - 1 <==> w.quote_amount * base_reserve
                - w.base_amount * quote_reserve <= w.base_reserve
        }),
{
    let w = withdrawal_outcome(
        lp_amount,
        min_base_token_output,
        min_quote_token_output,
        lp_balance,
        lp_token_supply,
        base_reserve,
        quote_reserve,
    )->Ok_0;
    let d = deposit_outcome(
        w.base_amount,
        w.quote_amount,
        (lp_token_supply - lp_amount) as u128,
        w.base_reserve,
        w.quote_reserve,
    )->Ok_0;
    let l = lp_amount as int;
    let s = lp_token_supply as int;
    let b = base_reserve as int;
    let q = quote_reserve as int;
    let rest = s - l;
    let bo = w.base_amount as int;
    let qo = w.quote_amount as int;
    let b1 = w.base_reserve as int;
    let q1 = w.quote_reserve as int;
    assert(b1 == b - bo && q1 == q - qo);
    assert(b1 > 0);

    // The shares: what is minted is `(l * b1 - rounded) / b1`.
    let minted = d.liquidity as int;
    let m = bo * rest;
    assert(m >= 0) by (nonlinear_arith)
        requires
            m == bo * rest,
            bo >= 0,
            rest >= 0,
    ;
    assert(minted == m / b1);
    lemma_floor(m, b1);
    assert(m == l * b1 - (l * b - s * bo)) by (nonlinear_arith)
        requires
            m == bo * rest,
            rest == s - l,
            b1 == b - bo,
    ;
    if l * b - s * bo <= b1 {
        assert((l - 1) * b1 <= m) by (nonlinear_arith)
            requires
                m == l * b1 - (l * b - s * bo),
                l * b - s * bo <= b1,
        ;
        lemma_floor_at_least(m, b1, l - 1);
    }
    if minted >= l - 1 {
        assert(b1 * (l - 1) <= b1 * minted) by (nonlinear_arith)
            requires
                minted >= l - 1,
                b1 > 0,
        ;
        assert(l * b - s * bo <= b1) by (nonlinear_arith)
            requires
                m == l * b1 - (l * b - s * bo),
                b1 * (l - 1) <= b1 * minted,
                b1 * minted <= m,
        ;
    }
    // The quote: what is taken is `(qo * b1 - (qo * b - bo * q)) / b1`.

    let taken = d.quote_amount as int;
    let n = bo * q1;
    assert(n >= 0) by (nonlinear_arith)
        requires
            n == bo * q1,
            bo >= 0,
            q1 >= 0,
    ;
    assert(taken == n / b1);
    assert(d.quote_reserve == q1 + taken);
    lemma_floor(n, b1);
    assert(n == qo * b1 - (qo * b - bo * q)) by (nonlinear_arith)
        requires
            n == bo * q1,
            q1 == q - qo,
            b1 == b - bo,
    ;
    if qo * b - bo * q <= b1 {
        assert((qo - 1) * b1 <= n) by (nonlinear_arith)
            requires
                n == qo * b1 - (qo * b - bo * q),
                qo * b - bo * q <= b1,
        ;
        lemma_floor_at_least(n, b1, qo - 1);
    }
    if taken >= qo - 1 {
        assert(b1 * (qo - 1) <= b1 * taken) by (nonlinear_arith)
            requires
                taken >= qo - 1,
                b1 > 0,
        ;
        assert(qo * b - bo * q <= b1) by (nonlinear_arith)
            requires
                n == qo * b1 - (qo * b - bo * q),
                b1 * (qo - 1) <= b1 * taken,
                b1 * taken <= n,
        ;
    }
}

/// Where `execute_swap` sells `sold` base, and a second `execute_swap` at
/// once buys `bought` base back for no more than the quote that the sale
/// paid out, `bought` is at most `sold`, where the sale paid a fee.
pub proof fn law_swap_round_trip(
    store: StoreView,
    info: MessageInfoView,
    env: EnvView,
    recipient: Seq<char>,
    expiration: Option<Expiration>,
    sold: u128,
    min_output: u128,
    info_back: MessageInfoView,
    env_back: EnvView,
    recipient_back: Seq<char>,
    expiration_back: Option<Expiration>,
    bought: u128,
)
    requires
        swap_outcome(
            store,
            info,
            env,
            sold,
            TokenSelect::Base,
            min_output,
            recipient,
            expiration,
        ) is Ok,
        ({
            let after_sale = swap_outcome(
                store,
                info,
                env,
                sold,
                TokenSelect::Base,
                min_output,
                recipient,
                expiration,
            )->Ok_0.store;
            let received = reserves(store).1 - reserves(after_sale).1;
            &&& 0 <= received <= u128::MAX
            &&& swap_outcome(
                after_sale,
                info_back,
                env_back,
                received as u128,
                TokenSelect::Quote,
                bought,
                recipient_back,
                expiration_back,
            ) is Ok
        }),
        fee_paid(TokenSelect::Base, sold, min_output, reserves(store).0, reserves(store).1) > 0,
    ensures
        bought <= sold,
{
    let (b, q) = reserves(store);
    lemma_quote_for_base_in_bounded(sold as nat, b as nat, q as nat);
    law_round_trip_bound(sold, min_output, bought, b, q);
}

/// Where `execute_remove_liquidity` redeems `lp_amount` shares out of
/// `lp_token_supply`, and `execute_add_liquidity` at once deposits the base
/// that came out, with the quote that came out as the bound, then
///
/// - the base reserve is what it was, the quote reserve is no larger, and
///   no more than `lp_amount` shares are minted, where shares remained in
///   between;
/// - the store is what it was and `lp_amount` shares are minted, where
///   moreover neither payout was rounded.
pub proof fn law_remove_then_add(
    store: StoreView,
    info: MessageInfoView,
    env: EnvView,
    expiration: Option<Expiration>,
    lp_token_supply: u128,
    user_lp_balance: u128,
    lp_amount: u128,
    min_base_token_output: u128,
    min_quote_token_output: u128,
    info_back: MessageInfoView,
    env_back: EnvView,
    expiration_back: Option<Expiration>,
)
    requires
        lp_amount < lp_token_supply,
        remove_liquidity_outcome(
            store,
            info,
            env,
            lp_token_supply,
            user_lp_balance,
            lp_amount,
            min_base_token_output,
            min_quote_token_output,
            expiration,
        ) is Ok,
        ({
            let after = remove_liquidity_outcome(
                store,
                info,
                env,
                lp_token_supply,
                user_lp_balance,
                lp_amount,
                min_base_token_output,
                min_quote_token_output,
                expiration,
            )->Ok_0.store;
            add_liquidity_outcome(
                after,
                info_back,
                env_back,
                (lp_token_supply - lp_amount) as u128,
                (reserves(store).0 - reserves(after).0) as u128,
                (reserves(store).1 - reserves(after).1) as u128,
                expiration_back,
            ) is Ok
        }),
    ensures
        ({
            let after = remove_liquidity_outcome(
                store,
                info,
                env,
                lp_token_supply,
                user_lp_balance,
                lp_amount,
                min_base_token_output,
                min_quote_token_output,
                expiration,
            )->Ok_0.store;
            let back = add_liquidity_outcome(
                after,
                info_back,
                env_back,
                (lp_token_supply - lp_amount) as u128,
                (reserves(store).0 - reserves(after).0) as u128,
                (reserves(store).1 - reserves(after).1) as u128,
                expiration_back,
            )->Ok_0;
            let minted = back.response.messages[1]->Cw20Mint_amount;
            &&& back.response.messages[1] is Cw20Mint
            &&& reserves(back.store).0 == reserves(store).0
            &&& reserves(back.store).1 <= reserves(store).1
            &&& minted <= lp_amount
            &&& (lp_amount * reserves(store).0) % (lp_token_supply as int) == 0 && (lp_amount
                * reserves(store).1) % (lp_token_supply as int) == 0 ==> back.store == store
                && minted == lp_amount
        }),
{
    let (b, q) = reserves(store);
    let w = withdrawal_outcome(
        lp_amount,
        min_base_token_output,
        min_quote_token_output,
        user_lp_balance,
        lp_token_supply,
        b,
        q,
    )->Ok_0;
    law_redeem_then_deposit_never_gains(
        lp_amount,
        min_base_token_output,
        min_quote_token_output,
        user_lp_balance,
        lp_token_supply,
        b,
        q,
    );
    if (lp_amount * b) % (lp_token_supply as int) == 0 && (lp_amount * q) % (
    lp_token_supply as int) == 0 {
        law_redeem_then_deposit_restores(
            lp_amount,
            min_base_token_output,
            min_quote_token_output,
            user_lp_balance,
            lp_token_supply,
            b,
            q,
        );
    }
}

} // verus!
