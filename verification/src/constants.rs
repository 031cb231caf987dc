//! The fixed, network-facing constants: the tunnel's stream-protocol
//! identifier, the agent string advertised during peer identification,
//! the relay bootstrap address, and the fixed local ports.

use vstd::prelude::*;

verus! {

/// The protocol identifier tagging the tunnel's application streams.
pub const TUNNEL_PROTOCOL: &'static str = "/proxy";

/// The agent/version string advertised during the identify exchange.
pub const AGENT_VERSION: &'static str = "libp2p-proxy-vpn";

/// The protocol version advertised during the identify exchange.
pub const IDENTIFY_PROTOCOL_VERSION: &'static str = "/proxy/0.0.1";

/// The bootstrap address of the fixed, well-known relay service: the
/// initial dial target, and the prefix of every relay-circuit address.
pub const RELAY_BOOTSTRAP_ADDRESS: &'static str =
    "/ip4/104.131.131.82/udp/4001/quic-v1/p2p/QmaCpDMGvV2BGHeYERUEnRQAwe3N8SzbUtfsmvsqQLuvuJ";

/// The local port of the user-side proxy listener that browsers connect
/// to.
pub const LOCAL_PROXY_PORT: u16 = 8080;

/// The loopback port of the local HTTP forward-proxy on the sharer side.
pub const FORWARD_PROXY_PORT: u16 = 8090;

/// The fixed local UDP port the overlay transport listens on.
pub const OVERLAY_LISTEN_PORT: u16 = 12007;

} // verus!
