//! Core of a filtering DNS proxy: transaction-ID rewriting for the UDP and TCP
//! listeners, DNS-over-TCP framing, the DNS-over-HTTPS request space, the
//! blocklist and the resolver's decision for each query.
//!
//! The library works on plain values.  Sockets, channels and the HTTPS
//! client live with the caller, which feeds what it read into these
//! functions and performs what they return.

pub mod doh;
pub mod filter;
pub mod hosts;
pub mod ids;
pub mod laws;
pub mod resolver;
pub mod tcp;
pub mod udp;
pub mod wire;
