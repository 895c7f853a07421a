//! McpMux core logic: server definitions, feature-set permissions, OAuth
//! client registration rules and the gateway's connection bookkeeping.

pub mod text;
mod ids;
mod pattern;
pub mod uri;
pub mod feature;
pub mod feature_set;
pub mod resolution;
pub mod dcr;
pub mod branding;
pub mod server;
pub mod config;
pub mod event;
pub mod ui;
pub mod registry;
pub mod oauth;
pub mod outbound;
pub mod pool;
pub mod transports;
pub mod storage;
pub mod gateway_api;
pub mod set_api;
pub mod credentials;
pub mod protocol;
pub mod flows;

pub use text::chars_of;
