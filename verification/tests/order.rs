use pumpfun::pumpfun::order::{
    make_order, order_amount, Quote, QuoteRequest, LARGE_COST, LARGE_ORDER, SMALL_ORDER,
    SMALL_QUOTE,
};

#[test]
fn constants_are_the_documented_amounts() {
    assert_eq!(SMALL_QUOTE, 100 * 1_000_000_u64);
    assert_eq!(LARGE_ORDER, 25547619 * 1_000_000_u64);
    assert_eq!(SMALL_ORDER, 255476 * 1_000_000_u64);
}

#[test]
#[allow(deprecated)]
fn large_cost_is_a_hundredth_of_a_sol() {
    assert_eq!(LARGE_COST, solana_sdk::native_token::sol_to_lamports(0.01));
}

#[test]
fn quotes_above_the_threshold_are_kept() {
    assert_eq!(order_amount(100_000_001, 0), 100_000_001);
    assert_eq!(order_amount(100_000_001, u64::MAX), 100_000_001);
    assert_eq!(order_amount(u64::MAX, 1), u64::MAX);
}

#[test]
fn small_quotes_are_replaced_by_cost() {
    assert_eq!(order_amount(100_000_000, 10_000_001), 25_547_619_000_000);
    assert_eq!(order_amount(0, 10_000_001), 25_547_619_000_000);
    assert_eq!(order_amount(100_000_000, 10_000_000), 255_476_000_000);
    assert_eq!(order_amount(0, 0), 255_476_000_000);
}

#[test]
fn orders_are_never_small_and_grow_with_cost() {
    for quoted in [0, 1, 99_999_999, 100_000_000, 100_000_001, 5_000_000_000] {
        let low = order_amount(quoted, 9_999_999);
        let high = order_amount(quoted, 20_000_000);
        assert!(low > SMALL_QUOTE);
        assert!(low <= high);
    }
}

#[test]
fn an_order_takes_its_parts_from_request_and_quote() {
    let request = QuoteRequest { mint: [2; 32], buy_sol_cost: 7, slippage_basis_points: 100 };
    let quote = Quote {
        bonding_curve: [3; 32],
        creator_vault: [4; 32],
        max_sol_cost: 8,
        token_amount: 200_000_000,
    };
    let order = make_order(&[1; 32], &[5; 32], &request, &quote);
    assert_eq!(order.payer, [1; 32]);
    assert_eq!(order.mint, [2; 32]);
    assert_eq!(order.bonding_curve, [3; 32]);
    assert_eq!(order.creator_vault, [4; 32]);
    assert_eq!(order.fee_recipient, [5; 32]);
    assert_eq!(order.amount, 200_000_000);
    assert_eq!(order.max_sol_cost, 8);
}
