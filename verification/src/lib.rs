//! Network front-end logic of a small game server: the binary packet codec,
//! the handshake and status stages, and the connection table that an event
//! loop drives.

pub mod error;
pub mod varint;
pub mod packet_write;
pub mod packet_read;
pub mod codec_laws;
pub mod config;
pub mod chat;
pub mod network_client;
pub mod handshaking;
pub mod status;
pub mod handler;
pub mod server;
pub mod console;
