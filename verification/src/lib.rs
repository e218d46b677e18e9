//! A trading client for pump.fun bonding curves.
//!
//! The library decides: what to order, which instructions a purchase is made of,
//! which fee clients to use and how a purchase proceeds. Its callers talk to the
//! chain and hand back what they learn.
use std::sync::Arc;

use vstd::prelude::*;

pub mod chain;
pub mod common;
pub mod keypair;
pub mod keys;
pub mod pumpfun;
pub mod refresh;
pub mod sdk;
pub mod swqos;

use crate::chain::{Blockhash, Pubkey};
use crate::common::{Cluster, CommitmentLevel, PriorityFee};
use crate::keypair::Keypair;
use crate::swqos::{enabled_fee_clients, fee_clients, shared, FeeClient};

verus! {

/// How often the cached blockhash is fetched anew, in seconds.
pub const BLOCKHASH_REFRESH_SECONDS: u64 = 10;

/// How to reach the RPC service.
#[derive(Debug, PartialEq, Eq)]
pub struct RpcEndpoint {
    pub url: String,
    pub commitment: CommitmentLevel,
}

/// A trading client.
pub struct PumpFun {
    pub payer: Arc<Keypair>,
    pub rpc: Arc<RpcEndpoint>,
    pub fee_clients: Vec<Arc<FeeClient>>,
    pub priority_fee: PriorityFee,
    pub cluster: Cluster,
}

/// The latest blockhash that is known. It stands apart from the client and cannot be
/// copied, so that a client and its clones order on one cache.
#[derive(Debug, PartialEq, Eq)]
pub struct BlockhashCache {
    pub latest: Blockhash,
}

impl BlockhashCache {
    /// The cache after a blockhash was written to it.
    pub open spec fn refreshed(self, latest_blockhash: Blockhash) -> BlockhashCache {
        BlockhashCache { latest: latest_blockhash }
    }

    /// The cache after all of `written` were written to it, one after the other.
    pub open spec fn after(self, written: Seq<Blockhash>) -> BlockhashCache
        decreases written.len(),
    {
        if written.len() == 0 {
            self
        } else {
            self.after(written.drop_last()).refreshed(written.last())
        }
    }

    /// Replaces the cached blockhash.
    pub fn refresh(&mut self, latest_blockhash: Blockhash)
        ensures
            *final(self) == old(self).refreshed(latest_blockhash),
            final(self).latest == latest_blockhash,
    {
        self.latest = latest_blockhash;
    }
}

/// The services that an order goes through.
#[derive(Clone, Copy, Debug, PartialEq, Eq)]
pub enum Route {
    /// The RPC service.
    Rpc,
    /// The fee clients.
    FeeClients,
    /// Both.
    RpcAndFeeClients,
}

/// An order to buy a given amount of tokens.
#[derive(Clone, Copy, Debug, PartialEq, Eq)]
pub struct BuyRequest {
    pub route: Route,
    pub payer: Pubkey,
    pub mint: Pubkey,
    pub creator: Pubkey,
    pub buy_token_amount: u64,
    pub max_amount_sol: u64,
    pub slippage_basis_points: Option<u64>,
    pub priority_fee: PriorityFee,
    pub blockhash: Blockhash,
}

/// How much an order sells.
#[derive(Clone, Copy, Debug, PartialEq, Eq)]
pub enum SellAmount {
    /// A number of tokens, if one is named.
    Tokens(Option<u64>),
    /// A percentage of the tokens held.
    Percent(u64),
}

/// An order to sell tokens.
#[derive(Clone, Copy, Debug, PartialEq, Eq)]
pub struct SellRequest {
    pub route: Route,
    pub payer: Pubkey,
    pub mint: Pubkey,
    pub bonding_curve_creator: Pubkey,
    pub amount: SellAmount,
    pub priority_fee: PriorityFee,
    pub blockhash: Blockhash,
}

/// The view of a [`PumpFun`].
#[verifier::ext_equal]
pub struct PumpFunView {
    pub payer: Keypair,
    pub rpc: RpcEndpoint,
    pub fee_clients: Seq<FeeClient>,
    pub priority_fee: PriorityFee,
    pub cluster: Cluster,
}

impl View for PumpFun {
    type V = PumpFunView;

    open spec fn view(&self) -> PumpFunView {
        PumpFunView {
            payer: *self.payer,
            rpc: *self.rpc,
            fee_clients: shared(self.fee_clients@),
            priority_fee: self.priority_fee,
            cluster: self.cluster,
        }
    }
}

impl PumpFunView {
    /// The order to buy, at the client's priority fee and on a blockhash.
    pub open spec fn buy_request(
        self,
        blockhash: Blockhash,
        route: Route,
        mint: Pubkey,
        creator: Pubkey,
        buy_token_amount: u64,
        max_amount_sol: u64,
        slippage_basis_points: Option<u64>,
    ) -> BuyRequest {
        BuyRequest {
            route,
            payer: self.payer.public_key(),
            mint,
            creator,
            buy_token_amount,
            max_amount_sol,
            slippage_basis_points,
            priority_fee: self.priority_fee,
            blockhash,
        }
    }

    /// The order to sell, at the client's priority fee and on a blockhash.
    pub open spec fn sell_request(
        self,
        blockhash: Blockhash,
        route: Route,
        mint: Pubkey,
        bonding_curve_creator: Pubkey,
        amount: SellAmount,
    ) -> SellRequest {
        SellRequest {
            route,
            payer: self.payer.public_key(),
            mint,
            bonding_curve_creator,
            amount,
            priority_fee: self.priority_fee,
            blockhash,
        }
    }
}

impl Clone for PumpFun {
    fn clone(&self) -> (copy: Self)
        ensures
            copy@ == self@,
            *copy.payer == *self.payer,
            *copy.rpc == *self.rpc,
            copy.fee_clients@ == self.fee_clients@,
            copy.priority_fee == self.priority_fee,
            copy.cluster == self.cluster,
    {
        let mut fee_clients: Vec<Arc<FeeClient>> = Vec::new();
        let mut i: usize = 0;
        while i < self.fee_clients.len()
            invariant
                i <= self.fee_clients.len(),
                fee_clients@ == self.fee_clients@.take(i as int),
            decreases self.fee_clients.len() - i,
        {
            fee_clients.push(self.fee_clients[i].clone());
            i += 1;
            assert(fee_clients@ =~= self.fee_clients@.take(i as int));
        }
        assert(fee_clients@ =~= self.fee_clients@);
        PumpFun {
            payer: self.payer.clone(),
            rpc: self.rpc.clone(),
            fee_clients,
            priority_fee: self.priority_fee,
            cluster: self.cluster.clone(),
        }
    }
}

impl PumpFun {
    /// A client for `cluster`, and its cache, which starts with `latest_blockhash`.
    pub fn new(payer: Arc<Keypair>, cluster: &Cluster, latest_blockhash: Blockhash) -> (made: (
        PumpFun,
        BlockhashCache,
    ))
        ensures
            made.0@ == (PumpFunView {
                payer: *payer,
                rpc: RpcEndpoint { url: cluster.rpc_url, commitment: cluster.commitment },
                fee_clients: enabled_fee_clients(*cluster),
                priority_fee: cluster.priority_fee,
                cluster: *cluster,
            }),
            made.1 == (BlockhashCache { latest: latest_blockhash }),
            *made.0.payer == *payer,
            made.0.rpc.url == cluster.rpc_url,
            made.0.rpc.commitment == cluster.commitment,
            made.0.priority_fee == cluster.priority_fee,
            made.0.cluster == *cluster,
            made.1.latest == latest_blockhash,
    {
        let rpc = RpcEndpoint { url: cluster.rpc_url.clone(), commitment: cluster.commitment };
        let client = PumpFun {
            payer,
            rpc: Arc::new(rpc),
            fee_clients: fee_clients(cluster),
            priority_fee: cluster.priority_fee,
            cluster: cluster.clone(),
        };
        (client, BlockhashCache { latest: latest_blockhash })
    }

    /// The order to buy tokens, on the blockhash in `cache`.
    pub fn buy(
        &self,
        cache: &BlockhashCache,
        mint: Pubkey,
        creator: Pubkey,
        buy_token_amount: u64,
        max_amount_sol: u64,
        slippage_basis_points: Option<u64>,
    ) -> (request: BuyRequest)
        ensures
            request == self@.buy_request(
                cache.latest,
                Route::Rpc,
                mint,
                creator,
                buy_token_amount,
                max_amount_sol,
                slippage_basis_points,
            ),
            request.route == Route::Rpc,
            request.payer == self.payer.public_key(),
            request.mint == mint,
            request.creator == creator,
            request.buy_token_amount == buy_token_amount,
            request.max_amount_sol == max_amount_sol,
            request.slippage_basis_points == slippage_basis_points,
            request.priority_fee == self.priority_fee,
            request.blockhash == cache.latest,
    {
        BuyRequest {
            route: Route::Rpc,
            payer: self.payer.pubkey(),
            mint,
            creator,
            buy_token_amount,
            max_amount_sol,
            slippage_basis_points,
            priority_fee: self.priority_fee,
            blockhash: cache.latest,
        }
    }

    /// The order to buy tokens through the fee clients.
    pub fn buy_with_tip(
        &self,
        cache: &BlockhashCache,
        mint: Pubkey,
        creator: Pubkey,
        buy_token_amount: u64,
        amount_sol: u64,
        slippage_basis_points: Option<u64>,
    ) -> (request: BuyRequest)
        ensures
            request == self@.buy_request(
                cache.latest,
                Route::FeeClients,
                mint,
                creator,
                buy_token_amount,
                amount_sol,
                slippage_basis_points,
            ),
            request.route == Route::FeeClients,
            request.payer == self.payer.public_key(),
            request.mint == mint,
            request.creator == creator,
            request.buy_token_amount == buy_token_amount,
            request.max_amount_sol == amount_sol,
            request.slippage_basis_points == slippage_basis_points,
            request.priority_fee == self.priority_fee,
            request.blockhash == cache.latest,
    {
        BuyRequest {
            route: Route::FeeClients,
            payer: self.payer.pubkey(),
            mint,
            creator,
            buy_token_amount,
            max_amount_sol: amount_sol,
            slippage_basis_points,
            priority_fee: self.priority_fee,
            blockhash: cache.latest,
        }
    }

    /// The order to sell tokens.
    pub fn sell(
        &self,
        cache: &BlockhashCache,
        mint: Pubkey,
        bonding_curve_creator: Pubkey,
        amount_token: Option<u64>,
    ) -> (request: SellRequest)
        ensures
            request == self@.sell_request(
                cache.latest,
                Route::Rpc,
                mint,
                bonding_curve_creator,
                SellAmount::Tokens(amount_token),
            ),
            request.route == Route::Rpc,
            request.payer == self.payer.public_key(),
            request.mint == mint,
            request.bonding_curve_creator == bonding_curve_creator,
            request.amount == SellAmount::Tokens(amount_token),
            request.priority_fee == self.priority_fee,
            request.blockhash == cache.latest,
    {
        self.sell_order(
            cache,
            Route::Rpc,
            mint,
            bonding_curve_creator,
            SellAmount::Tokens(amount_token),
        )
    }

    /// The order to sell a percentage of the tokens held.
    pub fn sell_by_percent(
        &self,
        cache: &BlockhashCache,
        mint: Pubkey,
        bonding_curve_creator: Pubkey,
        percent: u64,
    ) -> (request: SellRequest)
        ensures
            request == self@.sell_request(
                cache.latest,
                Route::Rpc,
                mint,
                bonding_curve_creator,
                SellAmount::Percent(percent),
            ),
            request.route == Route::Rpc,
            request.payer == self.payer.public_key(),
            request.mint == mint,
            request.bonding_curve_creator == bonding_curve_creator,
            request.amount == SellAmount::Percent(percent),
            request.priority_fee == self.priority_fee,
            request.blockhash == cache.latest,
    {
        self.sell_order(
            cache,
            Route::Rpc,
            mint,
            bonding_curve_creator,
            SellAmount::Percent(percent),
        )
    }

    /// The order to sell a percentage of the tokens held through the fee clients.
    pub fn sell_by_percent_with_tip(
        &self,
        cache: &BlockhashCache,
        mint: Pubkey,
        bonding_curve_creator: Pubkey,
        percent: u64,
    ) -> (request: SellRequest)
        ensures
            request == self@.sell_request(
                cache.latest,
                Route::RpcAndFeeClients,
                mint,
                bonding_curve_creator,
                SellAmount::Percent(percent),
            ),
            request.route == Route::RpcAndFeeClients,
            request.payer == self.payer.public_key(),
            request.mint == mint,
            request.bonding_curve_creator == bonding_curve_creator,
            request.amount == SellAmount::Percent(percent),
            request.priority_fee == self.priority_fee,
            request.blockhash == cache.latest,
    {
        self.sell_order(
            cache,
            Route::RpcAndFeeClients,
            mint,
            bonding_curve_creator,
            SellAmount::Percent(percent),
        )
    }

    /// The order to sell tokens through the fee clients.
    pub fn sell_with_tip(
        &self,
        cache: &BlockhashCache,
        mint: Pubkey,
        bonding_curve_creator: Pubkey,
        amount_token: Option<u64>,
    ) -> (request: SellRequest)
        ensures
            request == self@.sell_request(
                cache.latest,
                Route::FeeClients,
                mint,
                bonding_curve_creator,
                SellAmount::Tokens(amount_token),
            ),
            request.route == Route::FeeClients,
            request.payer == self.payer.public_key(),
            request.mint == mint,
            request.bonding_curve_creator == bonding_curve_creator,
            request.amount == SellAmount::Tokens(amount_token),
            request.priority_fee == self.priority_fee,
            request.blockhash == cache.latest,
    {
        self.sell_order(
            cache,
            Route::FeeClients,
            mint,
            bonding_curve_creator,
            SellAmount::Tokens(amount_token),
        )
    }

    fn sell_order(
        &self,
        cache: &BlockhashCache,
        route: Route,
        mint: Pubkey,
        bonding_curve_creator: Pubkey,
        amount: SellAmount,
    ) -> (request: SellRequest)
        ensures
            request == self@.sell_request(cache.latest, route, mint, bonding_curve_creator, amount),
    {
        SellRequest {
            route,
            payer: self.payer.pubkey(),
            mint,
            bonding_curve_creator,
            amount,
            priority_fee: self.priority_fee,
            blockhash: cache.latest,
        }
    }

    /// The address that pays for the client's transactions.
    pub fn get_payer_pubkey(&self) -> (key: Pubkey)
        ensures
            key == self@.payer.public_key(),
            key == self.payer.public_key(),
    {
        self.payer.pubkey()
    }

    /// The key pair that pays for the client's transactions.
    pub fn get_payer(&self) -> (payer: &Keypair)
        ensures
            *payer == self@.payer,
            *payer == *self.payer,
    {
        &self.payer
    }
}

/// An order on a cache carries the last blockhash that was written to it, or the one
/// that it started with, and it is the same order whether a client or a clone of
/// it gives it.
pub proof fn law_clones_order_on_the_last_blockhash(
    client: PumpFunView,
    copy: PumpFunView,
    cache: BlockhashCache,
    written: Seq<Blockhash>,
    route: Route,
    mint: Pubkey,
    creator: Pubkey,
    buy_token_amount: u64,
    max_amount_sol: u64,
    slippage_basis_points: Option<u64>,
    amount: SellAmount,
)
    requires
        copy == client,
    ensures
        ({
            let latest = cache.after(written).latest;
            let last = if written.len() > 0 {
                written.last()
            } else {
                cache.latest
            };
            let bought = client.buy_request(
                latest,
                route,
                mint,
                creator,
                buy_token_amount,
                max_amount_sol,
                slippage_basis_points,
            );
            let sold = client.sell_request(latest, route, mint, creator, amount);
            &&& bought.blockhash == last
            &&& sold.blockhash == last
            &&& copy.buy_request(
                latest,
                route,
                mint,
                creator,
                buy_token_amount,
                max_amount_sol,
                slippage_basis_points,
            ) == bought
            &&& copy.sell_request(latest, route, mint, creator, amount) == sold
        }),
{
}

/// A new blockhash reaches every later order, and changes nothing else about it.
pub proof fn law_refresh_changes_only_the_blockhash(
    client: PumpFunView,
    cache: BlockhashCache,
    latest_blockhash: Blockhash,
    route: Route,
    mint: Pubkey,
    creator: Pubkey,
    buy_token_amount: u64,
    max_amount_sol: u64,
    slippage_basis_points: Option<u64>,
    amount: SellAmount,
)
    ensures
        client.buy_request(
            cache.refreshed(latest_blockhash).latest,
            route,
            mint,
            creator,
            buy_token_amount,
            max_amount_sol,
            slippage_basis_points,
        ) == (BuyRequest {
            blockhash: latest_blockhash,
            ..client.buy_request(
                cache.latest,
                route,
                mint,
                creator,
                buy_token_amount,
                max_amount_sol,
                slippage_basis_points,
            )
        }),
        client.sell_request(
            cache.refreshed(latest_blockhash).latest,
            route,
            mint,
            creator,
            amount,
        ) == (SellRequest {
            blockhash: latest_blockhash,
            ..client.sell_request(cache.latest, route, mint, creator, amount)
        }),
{
}

/// An order to buy carries what the buyer named, unchanged, with the client's payer and
/// priority fee, whatever its route.
pub proof fn law_buy_order_carries_what_was_named(
    client: PumpFun,
    blockhash: Blockhash,
    route: Route,
    mint: Pubkey,
    creator: Pubkey,
    buy_token_amount: u64,
    max_amount_sol: u64,
    slippage_basis_points: Option<u64>,
)
    ensures
        ({
            let order = client@.buy_request(
                blockhash,
                route,
                mint,
                creator,
                buy_token_amount,
                max_amount_sol,
                slippage_basis_points,
            );
            &&& order.route == route
            &&& order.payer == client.payer.public_key()
            &&& order.mint == mint
            &&& order.creator == creator
            &&& order.buy_token_amount == buy_token_amount
            &&& order.max_amount_sol == max_amount_sol
            &&& order.slippage_basis_points == slippage_basis_points
            &&& order.priority_fee == client.priority_fee
            &&& order.blockhash == blockhash
        }),
{
}

/// An order to sell carries what the seller named, unchanged, with the client's payer
/// and priority fee, whatever its route.
pub proof fn law_sell_order_carries_what_was_named(
    client: PumpFun,
    blockhash: Blockhash,
    route: Route,
    mint: Pubkey,
    bonding_curve_creator: Pubkey,
    amount: SellAmount,
)
    ensures
        ({
            let order = client@.sell_request(
                blockhash,
                route,
                mint,
                bonding_curve_creator,
                amount,
            );
            &&& order.route == route
            &&& order.payer == client.payer.public_key()
            &&& order.mint == mint
            &&& order.bonding_curve_creator == bonding_curve_creator
            &&& order.amount == amount
            &&& order.priority_fee == client.priority_fee
            &&& order.blockhash == blockhash
        }),
{
}

/// The view of a client holds everything that the client holds.
pub proof fn law_client_view_is_complete(client: PumpFun)
    ensures
        client@.payer == *client.payer,
        client@.rpc == *client.rpc,
        client@.fee_clients.len() == client.fee_clients@.len(),
        forall|i: int|
            0 <= i < client.fee_clients@.len() ==> #[trigger] client@.fee_clients[i]
                == *client.fee_clients@[i],
        client@.priority_fee == client.priority_fee,
        client@.cluster == client.cluster,
{
}

/// What was written to a cache last is what it holds, whatever it held before.
pub proof fn law_last_write_stays(cache: BlockhashCache, written: Seq<Blockhash>, last: Blockhash)
    ensures
        cache.refreshed(last).latest == last,
        cache.after(written.push(last)).latest == last,
        cache.after(Seq::empty()) == cache,
{
    assert(written.push(last).drop_last() =~= written);
}

} // verus!
