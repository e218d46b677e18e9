//! What to order on a bonding curve, given what the curve quotes.
use vstd::prelude::*;

use crate::chain::Pubkey;

verus! {

/// The slippage that a purchase tolerates when its caller names none.
pub const DEFAULT_SLIPPAGE_BASIS_POINTS: u64 = 100;

/// Up to here, in token base units, a quote is too small to be ordered as it is.
pub const SMALL_QUOTE: u64 = 100_000_000;

/// Above this cost, 0.01 SOL in lamports, a small quote is replaced by the larger order.
pub const LARGE_COST: u64 = 10_000_000;

/// Ordered in place of a small quote where the cost is large.
pub const LARGE_ORDER: u64 = 25_547_619_000_000;

/// Ordered in place of a small quote otherwise.
pub const SMALL_ORDER: u64 = 255_476_000_000;

/// What has to be found out about a bonding curve before a purchase can be ordered.
#[derive(Clone, Copy, Debug, PartialEq, Eq)]
pub struct QuoteRequest {
    pub mint: Pubkey,
    pub buy_sol_cost: u64,
    pub slippage_basis_points: u64,
}

/// What was found out about a bonding curve.
#[derive(Clone, Copy, Debug, PartialEq, Eq)]
pub struct Quote {
    pub bonding_curve: Pubkey,
    pub creator_vault: Pubkey,
    /// The cost with the tolerated slippage on top, in lamports.
    pub max_sol_cost: u64,
    /// What the curve gives for the cost, in token base units.
    pub token_amount: u64,
}

/// The arguments of the trading program's buy instruction.
#[derive(Clone, Copy, Debug, PartialEq, Eq)]
pub struct BuyOrder {
    pub payer: Pubkey,
    pub mint: Pubkey,
    pub bonding_curve: Pubkey,
    pub creator_vault: Pubkey,
    pub fee_recipient: Pubkey,
    pub amount: u64,
    pub max_sol_cost: u64,
}

/// How many tokens to order where the curve quotes `quoted` of them for a cost of
/// at most `max_sol_cost`.
pub open spec fn ordered_amount(quoted: u64, max_sol_cost: u64) -> u64 {
    if quoted > SMALL_QUOTE {
        quoted
    } else if max_sol_cost > LARGE_COST {
        LARGE_ORDER
    } else {
        SMALL_ORDER
    }
}

/// The order that follows from a quote.
pub open spec fn order_for(
    payer: Pubkey,
    fee_recipient: Pubkey,
    request: QuoteRequest,
    quote: Quote,
) -> BuyOrder {
    BuyOrder {
        payer,
        mint: request.mint,
        bonding_curve: quote.bonding_curve,
        creator_vault: quote.creator_vault,
        fee_recipient,
        amount: ordered_amount(quote.token_amount, quote.max_sol_cost),
        max_sol_cost: quote.max_sol_cost,
    }
}

/// How many tokens to order.
pub fn order_amount(quoted: u64, max_sol_cost: u64) -> (amount: u64)
    ensures
        amount == ordered_amount(quoted, max_sol_cost),
{
    if quoted <= SMALL_QUOTE {
        if max_sol_cost > LARGE_COST {
            LARGE_ORDER
        } else {
            SMALL_ORDER
        }
    } else {
        quoted
    }
}

/// The order that follows from a quote.
pub fn make_order(
    payer: &Pubkey,
    fee_recipient: &Pubkey,
    request: &QuoteRequest,
    quote: &Quote,
) -> (order: BuyOrder)
    ensures
        order == order_for(*payer, *fee_recipient, *request, *quote),
        order.payer == *payer,
        order.fee_recipient == *fee_recipient,
        order.mint == request.mint,
        order.bonding_curve == quote.bonding_curve,
        order.creator_vault == quote.creator_vault,
        order.max_sol_cost == quote.max_sol_cost,
{
    BuyOrder {
        payer: *payer,
        mint: request.mint,
        bonding_curve: quote.bonding_curve,
        creator_vault: quote.creator_vault,
        fee_recipient: *fee_recipient,
        amount: order_amount(quote.token_amount, quote.max_sol_cost),
        max_sol_cost: quote.max_sol_cost,
    }
}

/// Whatever the curve quotes, the order is above what counts as small; a quote
/// above it is ordered as it is, and a quote up to it is replaced by an amount
/// that only the cost decides.
pub proof fn law_orders_are_never_small(quoted: u64, other: u64, max_sol_cost: u64)
    ensures
        ordered_amount(quoted, max_sol_cost) > SMALL_QUOTE,
        quoted > SMALL_QUOTE ==> ordered_amount(quoted, max_sol_cost) == quoted,
        quoted <= SMALL_QUOTE && other <= SMALL_QUOTE ==> ordered_amount(quoted, max_sol_cost)
            == ordered_amount(other, max_sol_cost),
{
}

/// A purchase that may cost more never orders less.
pub proof fn law_orders_grow_with_cost(quoted: u64, lower_cost: u64, higher_cost: u64)
    requires
        lower_cost <= higher_cost,
    ensures
        ordered_amount(quoted, lower_cost) <= ordered_amount(quoted, higher_cost),
{
}

/// A quote above 100 tokens is ordered as it is. For a smaller one, 25,547,619 tokens
/// are ordered where the cost may exceed 0.01 SOL, and 255,476 where it may not. A
/// token has a million base units.
pub proof fn law_amount_by_quote_and_cost(quoted: u64, max_sol_cost: u64)
    ensures
        quoted > 100_000_000 ==> ordered_amount(quoted, max_sol_cost) == quoted,
        quoted <= 100_000_000 && max_sol_cost > 10_000_000 ==> ordered_amount(quoted, max_sol_cost)
            == 25_547_619 * 1_000_000,
        quoted <= 100_000_000 && max_sol_cost <= 10_000_000 ==> ordered_amount(quoted, max_sol_cost)
            == 255_476 * 1_000_000,
{
}

/// An order is for the mint that was asked about, on the curve and with the vault and
/// the highest cost that were quoted, whatever slippage and cost the request named.
/// Only the amount may differ from the quote, and only where the quote is small.
pub proof fn law_order_keeps_its_parts(
    payer: Pubkey,
    fee_recipient: Pubkey,
    request: QuoteRequest,
    quote: Quote,
)
    ensures
        order_for(payer, fee_recipient, request, quote).payer == payer,
        order_for(payer, fee_recipient, request, quote).fee_recipient == fee_recipient,
        order_for(payer, fee_recipient, request, quote).mint == request.mint,
        order_for(payer, fee_recipient, request, quote).bonding_curve == quote.bonding_curve,
        order_for(payer, fee_recipient, request, quote).creator_vault == quote.creator_vault,
        order_for(payer, fee_recipient, request, quote).max_sol_cost == quote.max_sol_cost,
        quote.token_amount > 100_000_000 ==> order_for(payer, fee_recipient, request, quote).amount
            == quote.token_amount,
        quote.token_amount <= 100_000_000 && quote.max_sol_cost > 10_000_000 ==> order_for(
            payer,
            fee_recipient,
            request,
            quote,
        ).amount == 25_547_619_000_000,
        quote.token_amount <= 100_000_000 && quote.max_sol_cost <= 10_000_000 ==> order_for(
            payer,
            fee_recipient,
            request,
            quote,
        ).amount == 255_476_000_000,
{
}

} // verus!
