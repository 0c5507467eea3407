//! The kinds of I/O failure that the service tells apart.

use vstd::prelude::*;

verus! {

/// The kind of a failed read or write, one variant per kind of
/// `std::io::ErrorKind` that a socket can report; `Other` stands for any kind
/// not listed here.
#[derive(Debug, Clone, Copy, PartialEq, Eq, Structural)]
pub enum IoErrorKind {
    NotFound,
    PermissionDenied,
    ConnectionRefused,
    ConnectionReset,
    HostUnreachable,
    NetworkUnreachable,
    ConnectionAborted,
    NotConnected,
    AddrInUse,
    AddrNotAvailable,
    NetworkDown,
    BrokenPipe,
    AlreadyExists,
    WouldBlock,
    InvalidInput,
    InvalidData,
    TimedOut,
    WriteZero,
    Interrupted,
    Unsupported,
    UnexpectedEof,
    OutOfMemory,
    Other,
}

impl IoErrorKind {
    /// The kinds by which a read reports that the peer has gone away.
    pub open spec fn spec_means_peer_gone(self) -> bool {
        ||| self == IoErrorKind::ConnectionReset
        ||| self == IoErrorKind::ConnectionRefused
        ||| self == IoErrorKind::ConnectionAborted
        ||| self == IoErrorKind::BrokenPipe
        ||| self == IoErrorKind::NotConnected
        ||| self == IoErrorKind::UnexpectedEof
    }

    /// Whether a read that failed with this kind means that the peer has gone
    /// away, rather than that the connection broke.
    pub fn means_peer_gone(&self) -> (b: bool)
        ensures
            b == self.spec_means_peer_gone(),
    {
        match self {
            IoErrorKind::ConnectionReset
            | IoErrorKind::ConnectionRefused
            | IoErrorKind::ConnectionAborted
            | IoErrorKind::BrokenPipe
            | IoErrorKind::NotConnected
            | IoErrorKind::UnexpectedEof => true,
            _ => false,
        }
    }
}

/// The kinds that mean the peer went away are exactly connection reset,
/// connection refused, connection aborted, broken pipe, not connected and
/// unexpected end of file; every other kind, `Other` included, means that
/// the connection broke.
pub proof fn lemma_peer_gone_kinds(kind: IoErrorKind)
    ensures
        kind.spec_means_peer_gone() <==> (kind == IoErrorKind::ConnectionReset || kind
            == IoErrorKind::ConnectionRefused || kind == IoErrorKind::ConnectionAborted || kind
            == IoErrorKind::BrokenPipe || kind == IoErrorKind::NotConnected || kind
            == IoErrorKind::UnexpectedEof),
        !IoErrorKind::NotFound.spec_means_peer_gone(),
        !IoErrorKind::PermissionDenied.spec_means_peer_gone(),
        !IoErrorKind::HostUnreachable.spec_means_peer_gone(),
        !IoErrorKind::NetworkUnreachable.spec_means_peer_gone(),
        !IoErrorKind::AddrInUse.spec_means_peer_gone(),
        !IoErrorKind::AddrNotAvailable.spec_means_peer_gone(),
        !IoErrorKind::NetworkDown.spec_means_peer_gone(),
        !IoErrorKind::AlreadyExists.spec_means_peer_gone(),
        !IoErrorKind::WouldBlock.spec_means_peer_gone(),
        !IoErrorKind::InvalidInput.spec_means_peer_gone(),
        !IoErrorKind::InvalidData.spec_means_peer_gone(),
        !IoErrorKind::TimedOut.spec_means_peer_gone(),
        !IoErrorKind::WriteZero.spec_means_peer_gone(),
        !IoErrorKind::Interrupted.spec_means_peer_gone(),
        !IoErrorKind::Unsupported.spec_means_peer_gone(),
        !IoErrorKind::OutOfMemory.spec_means_peer_gone(),
        !IoErrorKind::Other.spec_means_peer_gone(),
{
}

} // verus!
