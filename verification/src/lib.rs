//! Verified core of a password manager that authenticates users with the
//! SRP-6a protocol (4096-bit group, BLAKE2b-512), together with the request
//! and response handling of its server and clients.

pub mod bytes;
pub mod bigint;
pub mod srp6a;
pub mod handshake;
pub mod messages;
pub mod models;
pub mod error;
pub mod text;
pub mod client;
pub mod server;
pub mod protocol;
pub mod utils;
