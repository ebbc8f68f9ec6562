//! What the card decides about its connection to the control server.

use vstd::prelude::*;
use crate::timestamp::Timestamp;

verus! {

/// Milliseconds without word from the control server after which the card
/// counts as not connected.
pub const CONTROL_SERVER_TIMEOUT_MS: u64 = 5_000;

/// Milliseconds that the card waits for the Ethernet link at start.
pub const LINK_TIMEOUT_MS: u64 = 5_000;

/// Bytes of the receive buffer of a TCP socket.
pub const TCP_RX_SOCKET_BUFFER_SIZE: usize = 4_096;

/// Bytes of the send buffer of a TCP socket.
pub const TCP_TX_SOCKET_BUFFER_SIZE: usize = 4_096;

/// The buffers of a TCP socket.
pub struct TcpSocketStorage {
    pub rx_storage: [u8; TCP_RX_SOCKET_BUFFER_SIZE],
    pub tx_storage: [u8; TCP_TX_SOCKET_BUFFER_SIZE],
}

impl TcpSocketStorage {
    /// Buffers filled with zeros.
    pub fn new() -> (storage: Self)
        ensures
            forall|i: int| 0 <= i < 4_096 ==> storage.rx_storage[i] == 0,
            forall|i: int| 0 <= i < 4_096 ==> storage.tx_storage[i] == 0,
    {
        Self { rx_storage: [0u8;4_096], tx_storage: [0u8;4_096] }
    }
}

/// Whether the card counts as connected at `now`, where `latest` is when
/// the control server was last heard: it was heard, and less than the
/// timeout ago.
pub open spec fn spec_is_connected(latest: Option<Timestamp>, now: Timestamp) -> bool {
    match latest {
        Some(heard) => heard@ + 5_000 > now@,
        None => false,
    }
}

/// Whether the card counts as connected to the control server at `now`.
#[verifier::when_used_as_spec(spec_is_connected)]
pub fn is_connected(latest: Option<Timestamp>, now: Timestamp) -> (connected: bool)
    ensures
        connected == spec_is_connected(latest, now),
{
    match latest {
        Some(heard) => match heard.millis().checked_add(CONTROL_SERVER_TIMEOUT_MS) {
            Some(end) => end > now.millis(),
            None => {
                proof {
                    Timestamp::lemma_view(now, now);
                }
                true
            },
        },
        None => false,
    }
}

/// What the card does with the TCP socket of the control server at one
/// step.
#[derive(Debug, Clone, Copy, PartialEq, Eq, Structural)]
pub struct TcpSocketPlan {
    /// Listen again: the socket is not open.
    pub listen: bool,
    /// Close: the other side has closed, and this side not yet.
    pub close: bool,
}

/// What the card does with the TCP socket of the control server, by what
/// the socket says of itself.
pub open spec fn spec_tcp_socket_plan(is_open: bool, may_recv: bool, may_send: bool)
    -> TcpSocketPlan {
    TcpSocketPlan { listen: !is_open, close: !may_recv && may_send }
}

/// What the card does with the TCP socket of the control server, by what
/// the socket says of itself before the step.
#[verifier::when_used_as_spec(spec_tcp_socket_plan)]
pub fn tcp_socket_plan(is_open: bool, may_recv: bool, may_send: bool) -> (plan: TcpSocketPlan)
    ensures
        plan == spec_tcp_socket_plan(is_open, may_recv, may_send),
{
    TcpSocketPlan { listen: !is_open, close: !may_recv && may_send }
}

/// Whether the wait for the Ethernet link at start is over after
/// `waited_ms` milliseconds.
pub fn link_wait_over(waited_ms: u64) -> (over: bool)
    ensures
        over == (waited_ms > 5_000),
{
    waited_ms > LINK_TIMEOUT_MS
}

/// A card that counts as connected at some moment has counted as connected
/// at every earlier moment since the server was heard.
pub proof fn lemma_connection_lapses(latest: Option<Timestamp>, earlier: Timestamp, later: Timestamp)
    requires
        earlier@ <= later@,
    ensures
        spec_is_connected(latest, later) ==> spec_is_connected(latest, earlier),
{
}

} // verus!
