//! Coordination core of a market-data and order-routing hub: a sliding-window
//! rate limiter, the registries that map bots and event streams to their
//! channels, and the decisions taken by the stream pollers and the request
//! dispatcher on each turn of their loops.

pub mod rate_limiter;
pub mod ring;
pub mod envelope;
pub mod registry;
pub mod streams;
pub mod router;
pub mod market_types;
pub mod api;
