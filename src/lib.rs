//! AirPods Accessory Control Protocol: frame codec, packet parser, command
//! encoder and the session's shared state, with their contracts proved.
pub mod opcodes;
pub mod types;
pub mod mac;
pub mod codec;
pub mod parser;
pub mod devices;
pub mod session;
pub mod connection;
pub mod laws;
