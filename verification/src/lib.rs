//! Firmware logic of a Wi-Fi lamp that takes brightness commands over a WebSocket.

pub mod boot;
pub mod decimal;
pub mod frame;
pub mod json;
pub mod laws;
pub mod light;
pub mod message;
pub mod session;
pub mod session_laws;
pub mod ws_client;
