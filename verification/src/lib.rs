//! A permissionless listing protocol: staked proposals to register tokens and to
//! open spot or perpetual markets, a review window with staked objections, and
//! liquidity pools for the markets that were approved.

pub mod address;
pub mod error;
pub mod lifecycle;
pub mod state;
pub mod utils;
pub mod processor;
pub mod ledger;
pub mod laws;
