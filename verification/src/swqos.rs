//! The fee clients: services that carry a transaction to the block producers for a tip.
use std::sync::Arc;

use vstd::prelude::*;

use crate::common::Cluster;

verus! {

/// A fee client and what it takes to connect to it.
#[derive(Debug, PartialEq, Eq)]
pub enum FeeClient {
    Jito { rpc_url: String, block_engine_url: String },
    ZeroSlot { rpc_url: String, endpoint: String, auth_token: String },
    NextBlock { rpc_url: String, endpoint: String, auth_token: String },
}

impl FeeClient {
    /// The RPC service that the fee client falls back on.
    pub open spec fn rpc_url(self) -> String {
        match self {
            FeeClient::Jito { rpc_url, .. } => rpc_url,
            FeeClient::ZeroSlot { rpc_url, .. } => rpc_url,
            FeeClient::NextBlock { rpc_url, .. } => rpc_url,
        }
    }
}

/// The Jito client of a cluster.
pub open spec fn jito_client(cluster: Cluster) -> FeeClient {
    FeeClient::Jito { rpc_url: cluster.rpc_url, block_engine_url: cluster.block_engine_url }
}

/// The ZeroSlot client of a cluster.
pub open spec fn zeroslot_client(cluster: Cluster) -> FeeClient {
    FeeClient::ZeroSlot {
        rpc_url: cluster.rpc_url,
        endpoint: cluster.zeroslot_url,
        auth_token: cluster.zeroslot_auth_token,
    }
}

/// The NextBlock client of a cluster.
pub open spec fn nextblock_client(cluster: Cluster) -> FeeClient {
    FeeClient::NextBlock {
        rpc_url: cluster.rpc_url,
        endpoint: cluster.nextblock_url,
        auth_token: cluster.nextblock_auth_token,
    }
}

/// A list of one element, if it is wanted.
pub open spec fn listed(wanted: bool, client: FeeClient) -> Seq<FeeClient> {
    if wanted {
        seq![client]
    } else {
        Seq::empty()
    }
}

/// The fee clients that a cluster asks for: Jito, ZeroSlot and NextBlock, in this order.
pub open spec fn enabled_fee_clients(cluster: Cluster) -> Seq<FeeClient> {
    listed(cluster.use_jito, jito_client(cluster)) + listed(
        cluster.use_zeroslot,
        zeroslot_client(cluster),
    ) + listed(cluster.use_nextblock, nextblock_client(cluster))
}

/// The fee clients behind a list of references.
pub open spec fn shared(clients: Seq<Arc<FeeClient>>) -> Seq<FeeClient> {
    clients.map_values(|client: Arc<FeeClient>| *client)
}

/// The fee clients that a cluster asks for.
pub fn fee_clients(cluster: &Cluster) -> (clients: Vec<Arc<FeeClient>>)
    ensures
        shared(clients@) == enabled_fee_clients(*cluster),
        forall|i: int|
            0 <= i < clients@.len() ==> match *#[trigger] clients@[i] {
                FeeClient::Jito { rpc_url, block_engine_url } => {
                    &&& rpc_url == cluster.rpc_url
                    &&& block_engine_url == cluster.block_engine_url
                },
                FeeClient::ZeroSlot { rpc_url, endpoint, auth_token } => {
                    &&& rpc_url == cluster.rpc_url
                    &&& endpoint == cluster.zeroslot_url
                    &&& auth_token == cluster.zeroslot_auth_token
                },
                FeeClient::NextBlock { rpc_url, endpoint, auth_token } => {
                    &&& rpc_url == cluster.rpc_url
                    &&& endpoint == cluster.nextblock_url
                    &&& auth_token == cluster.nextblock_auth_token
                },
            },
{
    let mut clients: Vec<Arc<FeeClient>> = Vec::new();
    if cluster.use_jito {
        clients.push(
            Arc::new(
                FeeClient::Jito {
                    rpc_url: cluster.rpc_url.clone(),
                    block_engine_url: cluster.block_engine_url.clone(),
                },
            ),
        );
    }
    if cluster.use_zeroslot {
        clients.push(
            Arc::new(
                FeeClient::ZeroSlot {
                    rpc_url: cluster.rpc_url.clone(),
                    endpoint: cluster.zeroslot_url.clone(),
                    auth_token: cluster.zeroslot_auth_token.clone(),
                },
            ),
        );
    }
    if cluster.use_nextblock {
        clients.push(
            Arc::new(
                FeeClient::NextBlock {
                    rpc_url: cluster.rpc_url.clone(),
                    endpoint: cluster.nextblock_url.clone(),
                    auth_token: cluster.nextblock_auth_token.clone(),
                },
            ),
        );
    }
    assert(shared(clients@) =~= enabled_fee_clients(*cluster));
    clients
}

/// A fee client is listed if and only if the cluster asks for it.
pub proof fn law_listed_iff_enabled(cluster: Cluster)
    ensures
        enabled_fee_clients(cluster).contains(jito_client(cluster)) <==> cluster.use_jito,
        enabled_fee_clients(cluster).contains(zeroslot_client(cluster)) <==> cluster.use_zeroslot,
        enabled_fee_clients(cluster).contains(nextblock_client(cluster)) <==> cluster.use_nextblock,
{
    let clients = enabled_fee_clients(cluster);
    let a: int = if cluster.use_jito { 1 } else { 0 };
    let b: int = if cluster.use_zeroslot { 1 } else { 0 };
    if cluster.use_jito {
        assert(clients[0] == jito_client(cluster));
    }
    if cluster.use_zeroslot {
        assert(clients[a] == zeroslot_client(cluster));
    }
    if cluster.use_nextblock {
        assert(clients[a + b] == nextblock_client(cluster));
    }
}

/// No fee client is listed twice, and all of them fall back on the cluster's RPC service.
pub proof fn law_distinct_on_one_rpc(cluster: Cluster)
    ensures
        enabled_fee_clients(cluster).no_duplicates(),
        enabled_fee_clients(cluster).len() <= 3,
        forall|i: int|
            0 <= i < enabled_fee_clients(cluster).len() ==> (#[trigger] enabled_fee_clients(
                cluster,
            )[i]).rpc_url() == cluster.rpc_url,
{
}

/// Every listed client has the endpoint and the token that the cluster names for it,
/// whichever other clients are listed.
pub proof fn law_each_client_has_its_own_settings(cluster: Cluster, i: int)
    requires
        0 <= i < enabled_fee_clients(cluster).len(),
    ensures
        match enabled_fee_clients(cluster)[i] {
            FeeClient::Jito { rpc_url, block_engine_url } => {
                &&& rpc_url == cluster.rpc_url
                &&& block_engine_url == cluster.block_engine_url
            },
            FeeClient::ZeroSlot { rpc_url, endpoint, auth_token } => {
                &&& rpc_url == cluster.rpc_url
                &&& endpoint == cluster.zeroslot_url
                &&& auth_token == cluster.zeroslot_auth_token
            },
            FeeClient::NextBlock { rpc_url, endpoint, auth_token } => {
                &&& rpc_url == cluster.rpc_url
                &&& endpoint == cluster.nextblock_url
                &&& auth_token == cluster.nextblock_auth_token
            },
        },
{
}

/// The list holds one client for each switch that is on, and no other: Jito before
/// ZeroSlot before NextBlock.
pub proof fn law_one_client_per_switch(cluster: Cluster)
    ensures
        cluster.use_jito <==> exists|i: int|
            0 <= i < enabled_fee_clients(cluster).len() && #[trigger] enabled_fee_clients(
                cluster,
            )[i] is Jito,
        cluster.use_zeroslot <==> exists|i: int|
            0 <= i < enabled_fee_clients(cluster).len() && #[trigger] enabled_fee_clients(
                cluster,
            )[i] is ZeroSlot,
        cluster.use_nextblock <==> exists|i: int|
            0 <= i < enabled_fee_clients(cluster).len() && #[trigger] enabled_fee_clients(
                cluster,
            )[i] is NextBlock,
        forall|i: int, j: int|
            #![trigger enabled_fee_clients(cluster)[i], enabled_fee_clients(cluster)[j]]
            0 <= i < j < enabled_fee_clients(cluster).len() ==> {
                ||| enabled_fee_clients(cluster)[i] is Jito && !(enabled_fee_clients(
                    cluster,
                )[j] is Jito)
                ||| enabled_fee_clients(cluster)[i] is ZeroSlot && enabled_fee_clients(
                    cluster,
                )[j] is NextBlock
            },
{
    let clients = enabled_fee_clients(cluster);
    let a: int = if cluster.use_jito { 1 } else { 0 };
    let b: int = if cluster.use_zeroslot { 1 } else { 0 };
    if cluster.use_jito {
        assert(clients[0] is Jito);
    }
    if cluster.use_zeroslot {
        assert(clients[a] is ZeroSlot);
    }
    if cluster.use_nextblock {
        assert(clients[a + b] is NextBlock);
    }
}

/// A list of references stands for what they refer to, in their order.
pub proof fn law_shared_keeps_every_client(clients: Seq<Arc<FeeClient>>)
    ensures
        shared(clients).len() == clients.len(),
        forall|i: int| 0 <= i < clients.len() ==> #[trigger] shared(clients)[i] == *clients[i],
{
}

} // verus!
