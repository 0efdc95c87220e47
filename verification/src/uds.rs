//! Connections over Unix datagram sockets.
//!
//! The transport routes packets by socket addresses. Here every socket path has a fake address, by
//! which the transport knows it. Packets go in plaintext.
pub mod addr;
pub mod plaintext;
pub mod socket;

use vstd::prelude::*;

verus! {

/// The largest datagram.
pub const UDS_MTU: u16 = 8_192;

/// The settings of the transport for local sockets.
#[derive(Debug, Clone, Copy, PartialEq, Eq, Structural)]
pub struct LocalTransport {
    pub initial_mtu: u16,
    pub min_mtu: u16,
    /// No MTU discovery: it is not needed for local sockets.
    pub mtu_discovery: bool,
    pub initial_rtt_millis: u64,
    pub stream_receive_window: u32,
    /// The largest value that there is.
    pub max_receive_window: bool,
    pub send_window: u64,
    pub max_concurrent_bidi_streams: u32,
    /// No keep-alive packets: nothing on the way forgets a local connection.
    pub keep_alive_millis: Option<u64>,
}

/// The settings of the transport for local sockets.
pub fn local_transport_config() -> (r: LocalTransport)
    ensures
        r.initial_mtu == UDS_MTU,
        r.min_mtu == UDS_MTU,
        !r.mtu_discovery,
        r.initial_rtt_millis == 1,
        r.stream_receive_window == 16 * 1024 * 1024,
        r.max_receive_window,
        r.send_window == 64 * 1024 * 1024,
        r.max_concurrent_bidi_streams == 1024,
        r.keep_alive_millis is None,
{
    LocalTransport {
        initial_mtu: UDS_MTU,
        min_mtu: UDS_MTU,
        mtu_discovery: false,
        initial_rtt_millis: 1,
        stream_receive_window: 16 * 1024 * 1024,
        max_receive_window: true,
        send_window: 64 * 1024 * 1024,
        max_concurrent_bidi_streams: 1024,
        keep_alive_millis: None,
    }
}

} // verus!
