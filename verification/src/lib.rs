//! The books of a simulated chain, and what goes with them: the genesis of a
//! chain, the history of its blocks, the outcomes of its transactions, the
//! memory tier of the cache of compiled contracts, and the context of a
//! contract call. The engine that executes transactions, the store and the
//! transaction pool stay outside: whoever drives a simulation asks them,
//! block by block, and hands their answers in.

pub mod account;
pub mod block;
pub mod bytemap;
pub mod cache;
pub mod context;
pub mod genesis;
pub mod hash;
pub mod outcome;
pub mod pool;
pub mod runtime;
