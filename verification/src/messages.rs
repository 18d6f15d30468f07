//! The control-protocol vocabulary shared by the two endpoints.

use vstd::prelude::*;

verus! {

/// One control message on the long-lived connection between the
/// coordinator (server) and the responder (peer).
///
/// The server drives each round with `ServerReady` followed by
/// `MtuValue`, the peer answers with `PeerDone`, and `Finish` is the
/// server's terminal signal once its sweep is exhausted.
#[derive(Clone, Copy, Debug, PartialEq, Eq, Structural)]
pub enum Message {
    /// Server -> peer: a new MTU has been applied, a round may start.
    ServerReady,
    /// Server -> peer: the MTU value just applied, sent right after
    /// `ServerReady`.
    MtuValue(u32),
    /// Peer -> server: the inner sweep for the announced MTU is done.
    PeerDone,
    /// Server -> peer: no further rounds; always the server's last
    /// message on a connection.
    Finish,
}

/// Why a frame could not be read from the control channel.
#[derive(Clone, Copy, Debug, PartialEq, Eq, Structural)]
pub enum ProtocolError {
    /// The stream ended before a frame could even begin.
    ConnectionClosed,
    /// The stream ended in the middle of a frame: fewer bytes arrived
    /// than the length prefix declared.
    Truncated,
    /// A complete frame arrived but its payload is not the encoding of
    /// any control message.
    Malformed,
}

} // verus!
