//! A distributed, observable two-state ("on"/"off") switch, synchronized
//! across participants over a publish/subscribe transport.
//!
//! The crate holds the protocol core: the binary state type with its wire
//! codec, the change-notification primitive with "wait for the next genuinely
//! new value" semantics, and the two participant roles — an authority that
//! owns ground-truth state and a stateless client proxy that mirrors it.
//! Transport delivery and physical pin driving are performed by the caller;
//! every decision the roles make is a verified function from plain values
//! (the role's record and the event that arrived) to plain values (the new
//! record and the outward effects to perform).

pub mod authority;
pub mod capability;
pub mod client;
pub mod notify;
pub mod state;
