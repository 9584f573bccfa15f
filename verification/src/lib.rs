//! A minimal on-chain fund dispenser ("faucet").
//!
//! The faucet holds a pool of native tokens in a single program-controlled
//! account and releases a fixed amount per request, subject to a cooldown
//! interval and admin-only reconfiguration. This crate is the faucet's state
//! transition logic: initialization, rate-limited withdrawal, and admin-gated
//! interval changes, each with a full functional contract. The host ledger
//! (account loading, signature verification, the clock, and the atomic value
//! transfer) is the caller's side of the boundary: it hands the entry points
//! the loaded account state, the current time, and the two balances, and
//! persists whatever comes back.

pub mod identity;
pub mod faucet;
pub mod codec;
pub mod laws;
