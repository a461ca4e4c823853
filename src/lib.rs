//! The accounting and lifecycle layer of a trading router: market trades with protocol fees,
//! resting limit orders, per-user liquidity balances and admin-gated configuration, kept in a
//! ledger that each call either updates as a whole or leaves untouched. Beside it stand the
//! token risk analysis and the context and staking record-keeping of the same contracts.

pub mod context_store;
pub mod contract;
pub mod decimal;
pub mod error;
pub mod laws;
pub mod msg;
pub mod payment;
pub mod pricing;
pub mod state;
pub mod table;
pub mod text;
pub mod token_analyzer;
