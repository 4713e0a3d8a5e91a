//! Verified core of a triangular-arbitrage scanner for a TOKEN/USDT,
//! TOKEN/BTC and BTC/USDT market triple.

pub mod basic;
pub mod stream;
pub mod symbols;
pub mod text;

pub use vstd::hash_map::StringHashMap;
