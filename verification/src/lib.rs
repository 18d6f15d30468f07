//! Verified core of a WireGuard MTU discovery tool.
//!
//! Two cooperating endpoints sweep their interface MTUs over a shared
//! control channel and measure throughput at every combination.  This
//! crate holds the parts with real logic in them, each with a proved
//! contract: the sweep value sequence, the framed control-message codec,
//! the coordinator and responder state machines, and the result-row
//! format.  Everything that touches the network, the filesystem or a
//! subprocess lives outside, in a thin unverified shell that drives the
//! state machines and performs the actions they return.

pub mod codec;
pub mod csv_format;
pub mod messages;
pub mod models;
pub mod numeral;
pub mod peer;
pub mod server;
pub mod sweep;
