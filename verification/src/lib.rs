//! Verified core of a peer-to-peer internet-sharing proxy.
//!
//! One machine (the sharer) re-exports its internet access to a remote
//! machine (the user) over a peer-to-peer overlay. The overlay transport,
//! the local HTTP forward-proxy and all socket I/O live outside this
//! library; what is verified here is the logic that drives them:
//!
//! - [`acl`]: the access-control gate deciding which inbound peers may
//!   use the tunnel;
//! - [`mode`]: resolution of the operating mode from the startup inputs;
//! - [`orchestrator`]: the connectivity state machine reacting to overlay
//!   events with relay reservations, dials and retries;
//! - [`bridge`]: the tunnel-bridge session model with its byte accounting
//!   and the per-attempt isolation of the acceptance loops.

pub mod acl;
pub mod bridge;
pub mod bytes;
pub mod constants;
pub mod mode;
pub mod orchestrator;
