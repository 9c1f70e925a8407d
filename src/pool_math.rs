//! Constant-product pool arithmetic, and the tokens a two-token pool trades.

use vstd::prelude::*;

verus! {

/// Amounts in swap computations.
pub type TokenSwapAmount = u128;

/// A token of a two-token pool, without its full address.
#[derive(Clone, Copy, Debug, PartialEq, Eq, Structural)]
pub enum DepositToken {
    /// The pool's A token.
    TokenA,
    /// The pool's B token.
    TokenB,
    /// The pool's liquidity token.
    LiquidityToken,
}

/// The direction of a swap: the token that goes in and the one that comes
/// out.
#[derive(Clone, Copy, Debug, PartialEq, Eq, Structural)]
pub struct TokensInOut {
    /// The input token.
    pub token_in: DepositToken,
    /// The output token.
    pub token_out: DepositToken,
}

impl TokensInOut {
    /// A swap of the A token into the B token.
    pub fn a_in_b_out() -> (r: Self)
        ensures
            r == (TokensInOut { token_in: DepositToken::TokenA, token_out: DepositToken::TokenB }),
    {
        TokensInOut { token_in: DepositToken::TokenA, token_out: DepositToken::TokenB }
    }

    /// A swap of the B token into the A token.
    pub fn b_in_a_out() -> (r: Self)
        ensures
            r == (TokensInOut { token_in: DepositToken::TokenB, token_out: DepositToken::TokenA }),
    {
        TokensInOut { token_in: DepositToken::TokenB, token_out: DepositToken::TokenA }
    }
}

/// `numerator / denominator`, rounded up.
pub open spec fn div_ceil(numerator: int, denominator: int) -> int {
    (numerator + denominator - 1) / denominator
}

/// `numerator / denominator` rounded up; refuses a zero denominator.
pub fn u128_division_ceil(numerator: u128, denominator: u128) -> (r: Result<u128, &'static str>)
    ensures
        denominator == 0 <==> r is Err,
        denominator == 0 ==> r == Err::<u128, &str>("Division by zero"),
        r matches Ok(q) ==> q == div_ceil(numerator as int, denominator as int),
{
    if denominator == 0 {
        return Err("Division by zero");
    }
    let quotient = numerator / denominator;
    let remainder = numerator % denominator;
    proof {
        assert(div_ceil(numerator as int, denominator as int) == quotient + if remainder == 0 {
            0int
        } else {
            1int
        }) by (nonlinear_arith)
            requires
                denominator > 0,
                quotient == numerator as int / denominator as int,
                remainder == numerator as int % denominator as int,
        ;
        assert(quotient * denominator + remainder == numerator) by (nonlinear_arith)
            requires
                denominator > 0,
                quotient == numerator as int / denominator as int,
                remainder == numerator as int % denominator as int,
        ;
        if remainder != 0 {
            assert(quotient < u128::MAX) by (nonlinear_arith)
                requires
                    quotient * denominator + remainder == numerator,
                    remainder > 0,
                    denominator > 0,
                    numerator <= u128::MAX,
            ;
        }
    }
    if remainder == 0 {
        Ok(quotient)
    } else {
        Ok(quotient + 1)
    }
}

/// The output of swapping `amount_in` into a pool holding
/// `token_in_liquidity_pool` and `token_out_liquidity_pool` under the
/// invariant `swap_constant`: the out-pool shrinks to the smallest amount that
/// keeps the product at the constant, rounded up in the pool's favour.
pub open spec fn swap_to_amount(
    token_in_liquidity_pool: int,
    token_out_liquidity_pool: int,
    swap_constant: int,
    amount_in: int,
) -> int {
    token_out_liquidity_pool - div_ceil(swap_constant, token_in_liquidity_pool + amount_in)
}

/// How many output tokens swapping in `amount_in` input tokens yields.
///
/// Fails when the updated in-pool overflows, when it is empty, and when the
/// out-pool would have to shrink below zero.
pub fn calculate_swap_to_amount(
    token_in_liquidity_pool: TokenSwapAmount,
    token_out_liquidity_pool: TokenSwapAmount,
    swap_constant: TokenSwapAmount,
    amount_in: TokenSwapAmount,
) -> (r: Result<TokenSwapAmount, &'static str>)
    ensures
        ({
            let updated = token_in_liquidity_pool + amount_in;
            r is Ok <==> (updated <= u128::MAX && updated > 0 && div_ceil(
                swap_constant as int,
                updated,
            ) <= token_out_liquidity_pool)
        }),
        token_in_liquidity_pool + amount_in > u128::MAX ==> r == Err::<TokenSwapAmount, &str>(
            "Overflow in token pool",
        ),
        token_in_liquidity_pool + amount_in == 0 ==> r == Err::<TokenSwapAmount, &str>(
            "Division by zero",
        ),
        0 < token_in_liquidity_pool + amount_in <= u128::MAX && div_ceil(
            swap_constant as int,
            token_in_liquidity_pool + amount_in,
        ) > token_out_liquidity_pool ==> r == Err::<TokenSwapAmount, &str>(
            "Underflow in token pool",
        ),
        r matches Ok(amount_out) ==> amount_out == swap_to_amount(
            token_in_liquidity_pool as int,
            token_out_liquidity_pool as int,
            swap_constant as int,
            amount_in as int,
        ),
{
    let token_in_pool_updated = match token_in_liquidity_pool.checked_add(amount_in) {
        Some(v) => v,
        None => return Err("Overflow in token pool"),
    };
    let token_out_pool_updated = match u128_division_ceil(swap_constant, token_in_pool_updated) {
        Ok(v) => v,
        Err(e) => return Err(e),
    };
    match token_out_liquidity_pool.checked_sub(token_out_pool_updated) {
        Some(v) => Ok(v),
        None => Err("Underflow in token pool"),
    }
}

} // verus!
