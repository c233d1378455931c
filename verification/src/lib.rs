//! A small web-service core: a validated payload that is chained through an
//! external echo service, static news and team data, and port parsing.
//!
//! The library holds the verified logic only; HTTP transport, JSON
//! serialization and the server loop live outside it.

pub mod chain;
pub mod news;
pub mod payload;
pub mod port;
pub mod teams;
