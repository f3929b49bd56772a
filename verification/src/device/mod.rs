pub mod handshake;
pub mod initialization;
pub mod registry;
