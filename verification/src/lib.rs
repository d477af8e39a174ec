//! Client library for a local tunneling daemon.
//!
//! A [`lokal::Lokal`] handle holds the connection configuration for the
//! daemon; a [`tunnel::Tunnel`] descriptor is built through fluent setters,
//! submitted, and tracks the addresses the daemon assigns. The network
//! transport itself stays outside this crate: the lifecycle functions here
//! take the daemon's already-parsed responses as plain values and decide
//! what each one means for the descriptor.

pub mod lokal;
pub mod strutil;
pub mod tunnel;
pub mod version;
