//! Real-time notification hub: a registry of live client connections and the
//! rules for authenticating a connection and fanning messages out to it.

pub mod channel;
pub mod claims;
pub mod dispatch;
pub mod endpoints;
pub mod envelope;
pub mod header;
pub mod ids;
pub mod json;
pub mod middleware;
pub mod models;
pub mod registry;
pub mod requests;
pub mod role;
pub mod session;
pub mod text;
pub mod token;
