//! Verified core of a VPN that fronts its traffic behind a TLS SNI relay and
//! chains it through Tor and/or I2P: the SOCKS5 handshake machine, the proxy
//! chain wiring, the Tor/I2P process bookkeeping, the kill-switch rules and the
//! small text formats (torrc, error messages) they produce.

pub mod text;
pub mod error;
pub mod socks5;
pub mod config;
pub mod chain;
pub mod tor;
pub mod i2p;
pub mod ipv4;
pub mod vpn;
pub mod sni;
pub mod ui;
