//! The embassy runtime's logic: SNTP packets, shared state caches, Wi-Fi
//! provisioning decisions, the software clock, driver adapters, runtime
//! commands, settings persistence and the HTTP API's request handling.

pub mod captive_portal;
pub mod sntp;
pub mod state;
pub mod wifi;
pub mod tasks;
pub mod time;
pub mod hardware;
pub mod system;
pub mod http;
pub mod runtime;
