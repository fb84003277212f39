//! A TCP-level load balancer core: a fixed pool of backends with health
//! flags, strict round-robin selection over the healthy ones, and the
//! decision logic of the health monitor and of each proxied connection.
//!
//! Sockets, timers and tasks live outside this crate; it is handed plain
//! values and answers with the next thing to do.

pub mod config;
pub mod model;
pub mod monitor;
pub mod pool;
pub mod proxy;
pub mod rotation;
