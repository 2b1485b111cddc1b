//! A loopback OAuth 2.0 authorization-code relay: the decisions of the
//! `start` and `callback` endpoints, the opaque state token, and the
//! redirect URLs, all with verified contracts.
pub mod text;
pub mod state;
pub mod error;
pub mod config;
pub mod token;
pub mod http_utils;
pub mod flow;
