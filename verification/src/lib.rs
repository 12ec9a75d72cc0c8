//! Verified core of three CosmWasm contracts that exchange a CW20 token for a
//! token-factory native denomination: the burn contract, the balance contract
//! (pays out of its own holdings) and the mint contract (mints as denom admin).
//!
//! The entry points that touch chain storage, the querier and the address API
//! live outside this crate; every decision they take is made here.

pub mod common;
pub mod cw20_burn;
pub mod cw20_burn_balance;
pub mod cw20_burn_mint;
pub mod cw20_msg;
pub mod denom;
pub mod effects;
pub mod error;
pub mod types;
