//! A Discord gateway client library built around a middleware stack.
//!
//! This crate holds the decisions: the session state and its encoding,
//! the reassembly and inflation of the compressed gateway stream, the
//! decoding of gateway payloads, a shard's heartbeat and identify logic,
//! the routing of events through interceptors, the event cache, and the
//! URLs and headers of REST requests. Opening connections, spawning tasks,
//! running middleware and serialising messages are left to the caller.
pub mod cache;
pub mod client;
pub mod event;
pub mod gateway;
pub mod http;
pub mod interceptors;
pub mod middleware;
pub mod text;

pub use client::{Client, ClientBuilder};
pub use gateway::event::{Dispatch, ReceivedEvent};
pub use gateway::GatewayCore;
pub use twilight_model;
