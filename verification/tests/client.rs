use std::sync::Arc;

use pumpfun::common::{Cluster, CommitmentLevel, PriorityFee};
use pumpfun::keypair::Keypair;
use pumpfun::swqos::{fee_clients, FeeClient};
use pumpfun::{BlockhashCache, PumpFun, Route, SellAmount, BLOCKHASH_REFRESH_SECONDS};

fn text(s: &str) -> String {
    String::from(s)
}

fn cluster(use_jito: bool, use_zeroslot: bool, use_nextblock: bool) -> Cluster {
    Cluster {
        rpc_url: text("https://rpc"),
        commitment: CommitmentLevel::Processed,
        priority_fee: PriorityFee { unit_limit: 1, unit_price: 2, buy_tip_lamports: 3 },
        use_jito,
        block_engine_url: text("https://engine"),
        use_zeroslot,
        zeroslot_url: text("https://zero"),
        zeroslot_auth_token: text("zero-token"),
        use_nextblock,
        nextblock_url: text("https://next"),
        nextblock_auth_token: text("next-token"),
    }
}

fn client() -> (PumpFun, BlockhashCache) {
    PumpFun::new(Arc::new(Keypair::from_secret([9; 32])), &cluster(true, true, true), [1; 32])
}

fn jito() -> Arc<FeeClient> {
    Arc::new(FeeClient::Jito {
        rpc_url: text("https://rpc"),
        block_engine_url: text("https://engine"),
    })
}

fn zeroslot() -> Arc<FeeClient> {
    Arc::new(FeeClient::ZeroSlot {
        rpc_url: text("https://rpc"),
        endpoint: text("https://zero"),
        auth_token: text("zero-token"),
    })
}

fn nextblock() -> Arc<FeeClient> {
    Arc::new(FeeClient::NextBlock {
        rpc_url: text("https://rpc"),
        endpoint: text("https://next"),
        auth_token: text("next-token"),
    })
}

#[test]
fn fee_clients_follow_the_switches_in_order() {
    assert_eq!(fee_clients(&cluster(false, false, false)), vec![]);
    assert_eq!(fee_clients(&cluster(true, false, false)), vec![jito()]);
    assert_eq!(fee_clients(&cluster(false, true, false)), vec![zeroslot()]);
    assert_eq!(fee_clients(&cluster(false, false, true)), vec![nextblock()]);
    assert_eq!(fee_clients(&cluster(true, false, true)), vec![jito(), nextblock()]);
    assert_eq!(fee_clients(&cluster(true, true, true)), vec![jito(), zeroslot(), nextblock()]);
}

#[test]
fn a_new_client_takes_its_settings_from_the_cluster() {
    let (client, cache) = client();
    assert_eq!(client.rpc.url, "https://rpc");
    assert_eq!(client.rpc.commitment, CommitmentLevel::Processed);
    assert_eq!(client.fee_clients, vec![jito(), zeroslot(), nextblock()]);
    assert_eq!(client.priority_fee, cluster(true, true, true).priority_fee);
    assert_eq!(client.cluster, cluster(true, true, true));
    assert_eq!(cache, BlockhashCache { latest: [1; 32] });
    assert_eq!(client.get_payer_pubkey(), Keypair::from_secret([9; 32]).pubkey());
    assert_eq!(client.get_payer().pubkey(), client.get_payer_pubkey());
    assert_eq!(BLOCKHASH_REFRESH_SECONDS, 10);
}

#[test]
fn a_clone_shares_what_the_client_holds() {
    let (client, _) = client();
    let copy = client.clone();
    assert!(Arc::ptr_eq(&client.payer, &copy.payer));
    assert!(Arc::ptr_eq(&client.rpc, &copy.rpc));
    assert_eq!(copy.fee_clients.len(), 3);
    for (own, other) in client.fee_clients.iter().zip(copy.fee_clients.iter()) {
        assert!(Arc::ptr_eq(own, other));
    }
    assert_eq!(copy.priority_fee, client.priority_fee);
    assert_eq!(copy.cluster, client.cluster);
}

#[test]
fn a_client_and_its_clone_order_on_the_last_blockhash() {
    let (client, mut cache) = client();
    let copy = client.clone();
    cache.refresh([7; 32]);
    assert_eq!(client.buy(&cache, [2; 32], [3; 32], 4, 5, None).blockhash, [7; 32]);
    assert_eq!(copy.buy(&cache, [2; 32], [3; 32], 4, 5, None).blockhash, [7; 32]);
    cache.refresh([8; 32]);
    let order = copy.sell(&cache, [2; 32], [3; 32], Some(4));
    assert_eq!(order.blockhash, [8; 32]);
    assert_eq!(order, client.sell(&cache, [2; 32], [3; 32], Some(4)));
}

#[test]
fn orders_to_buy_carry_what_they_are_given() {
    let (client, cache) = client();
    let order = client.buy(&cache, [2; 32], [3; 32], 4, 5, Some(6));
    assert_eq!(order.route, Route::Rpc);
    assert_eq!(order.payer, client.get_payer_pubkey());
    assert_eq!(order.mint, [2; 32]);
    assert_eq!(order.creator, [3; 32]);
    assert_eq!(order.buy_token_amount, 4);
    assert_eq!(order.max_amount_sol, 5);
    assert_eq!(order.slippage_basis_points, Some(6));
    assert_eq!(order.priority_fee, client.priority_fee);
    assert_eq!(order.blockhash, [1; 32]);
    let tipped = client.buy_with_tip(&cache, [2; 32], [3; 32], 4, 5, None);
    assert_eq!(tipped.route, Route::FeeClients);
    assert_eq!(tipped.buy_token_amount, 4);
    assert_eq!(tipped.max_amount_sol, 5);
    assert_eq!(tipped.slippage_basis_points, None);
}

#[test]
fn orders_to_sell_carry_what_they_are_given() {
    let (client, cache) = client();
    let order = client.sell(&cache, [2; 32], [3; 32], Some(4));
    assert_eq!(order.route, Route::Rpc);
    assert_eq!(order.mint, [2; 32]);
    assert_eq!(order.bonding_curve_creator, [3; 32]);
    assert_eq!(order.amount, SellAmount::Tokens(Some(4)));
    assert_eq!(order.blockhash, [1; 32]);
    assert_eq!(order.priority_fee, client.priority_fee);
    assert_eq!(order.payer, client.get_payer_pubkey());
    let percent = client.sell_by_percent(&cache, [2; 32], [3; 32], 50);
    assert_eq!((percent.route, percent.amount), (Route::Rpc, SellAmount::Percent(50)));
    let tipped = client.sell_with_tip(&cache, [2; 32], [3; 32], None);
    assert_eq!((tipped.route, tipped.amount), (Route::FeeClients, SellAmount::Tokens(None)));
    assert_eq!(tipped.mint, [2; 32]);
    assert_eq!(tipped.bonding_curve_creator, [3; 32]);
    let both = client.sell_by_percent_with_tip(&cache, [2; 32], [3; 32], 25);
    assert_eq!((both.route, both.amount), (Route::RpcAndFeeClients, SellAmount::Percent(25)));
}

#[test]
fn a_refresh_changes_only_the_blockhash() {
    let (client, mut cache) = client();
    let before = client.buy(&cache, [2; 32], [3; 32], 4, 5, None);
    cache.refresh([8; 32]);
    cache.refresh([9; 32]);
    let after = client.buy(&cache, [2; 32], [3; 32], 4, 5, None);
    assert_eq!(after.blockhash, [9; 32]);
    assert_eq!(before, pumpfun::BuyRequest { blockhash: before.blockhash, ..after });
}
