//! The verified core of a terminal Wi-Fi manager for NetworkManager: the rules
//! that read NetworkManager's state, the network list, connection profiles,
//! and the key-driven state machine of the interface.

pub mod app;
pub mod cli;
pub mod client;
pub mod conf;
pub mod laws;
pub mod link;
pub mod errors;
pub mod networks;
pub mod profile;
pub mod text;
pub mod types;
pub mod view;
