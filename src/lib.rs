//! A constant-product liquidity pool over two fungible-token ledgers, with the
//! ledger's optimistic transfer-and-notify protocol, written as state machines
//! whose cross-contract calls are returned to the host as pending work.
pub mod account;
pub mod account_map;
pub mod util;
pub mod math;
pub mod market_types;
pub mod events;
pub mod promise;
pub mod pool;
pub mod market_writer;
pub mod market_core;
pub mod ft_receiver;
pub mod metadata;
pub mod token;
pub mod token_core;
pub mod storage;
pub mod laws;
