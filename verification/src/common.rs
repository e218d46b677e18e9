//! Settings of the client.
use vstd::prelude::*;

verus! {

/// What a transaction offers for being executed early.
#[derive(Clone, Copy, Debug, PartialEq, Eq)]
pub struct PriorityFee {
    /// The most compute units that the transaction may use.
    pub unit_limit: u32,
    /// Micro-lamports for each compute unit.
    pub unit_price: u64,
    /// The tip that a buy pays to a fee client, in lamports.
    pub buy_tip_lamports: u64,
}

/// How settled a block must be for its state to be read.
#[derive(Clone, Copy, Debug, PartialEq, Eq)]
pub enum CommitmentLevel {
    Processed,
    Confirmed,
    Finalized,
}

/// The services that a client talks to.
#[derive(Debug, PartialEq, Eq)]
pub struct Cluster {
    pub rpc_url: String,
    pub commitment: CommitmentLevel,
    pub priority_fee: PriorityFee,
    pub use_jito: bool,
    pub block_engine_url: String,
    pub use_zeroslot: bool,
    pub zeroslot_url: String,
    pub zeroslot_auth_token: String,
    pub use_nextblock: bool,
    pub nextblock_url: String,
    pub nextblock_auth_token: String,
}

impl Clone for Cluster {
    fn clone(&self) -> (copy: Self)
        ensures
            copy == *self,
    {
        Cluster {
            rpc_url: self.rpc_url.clone(),
            commitment: self.commitment,
            priority_fee: self.priority_fee,
            use_jito: self.use_jito,
            block_engine_url: self.block_engine_url.clone(),
            use_zeroslot: self.use_zeroslot,
            zeroslot_url: self.zeroslot_url.clone(),
            zeroslot_auth_token: self.zeroslot_auth_token.clone(),
            use_nextblock: self.use_nextblock,
            nextblock_url: self.nextblock_url.clone(),
            nextblock_auth_token: self.nextblock_auth_token.clone(),
        }
    }
}

} // verus!
