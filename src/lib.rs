//! A greeter: it builds the line `hello to {to} — from {from}` from two names
//! and hands it to a sink supplied by the host.

pub mod greeting;
pub mod sink;
