//! Trading on the bonding curves of pump.fun.
pub mod buy;
pub mod laws;
pub mod order;
pub mod steps;
