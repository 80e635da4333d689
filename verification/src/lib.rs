//! A byte-oblivious TCP forwarding proxy, as a set of state machines.
//!
//! The crate holds the decisions of the proxy and none of its I/O: which
//! bytes to read and write next ([`relay`], over a [`buffer`]), when a
//! proxied connection is over ([`session`]), what the accept loop does with
//! each outcome ([`listener`]), and which settings are valid ([`config`],
//! [`address`]). A driver around it owns the sockets. The [`fixture`] is the
//! upstream that the proxy is tried against.

pub mod address;
pub mod buffer;
pub mod config;
pub mod fixture;
pub mod listener;
pub mod relay;
pub mod session;
pub mod text;
