//! The echo handlers: every read of a served connection is answered by
//! writing the same bytes back, until the peer closes its side.
//!
//! Two handlers differ in how they treat a failed read. The TCP handler
//! copies the stream as `tokio::io::copy` does: it reads again after an
//! interrupted read and reports any other failure. The tunnel handler
//! (`echo_step`) runs over a transport that tears a connection down at
//! once, so it also ends cleanly when a failure means the peer went away.

use vstd::prelude::*;
use crate::io_error::IoErrorKind;

verus! {

/// The number of bytes that the handler reads at most at a time.
pub const ECHO_BUFFER_SIZE: usize = 128;

/// What one read of the connection gave.
#[derive(Debug, PartialEq, Eq)]
pub enum ReadOutcome {
    /// The bytes read; none when the peer has closed its side.
    Received(Vec<u8>),
    /// The read failed.
    Failed(IoErrorKind),
}

/// What the handler does after a read.
#[derive(Debug, PartialEq, Eq)]
pub enum EchoAction {
    /// Write these bytes back to the peer, then read again.
    Write(Vec<u8>),
    /// Stop reading, shut down the writing side, and finish successfully.
    Shutdown,
    /// Stop and report that reading failed with this kind.
    Fail(IoErrorKind),
}

/// The outcome of a read that filled the first `len` bytes of `buf`: those
/// bytes, and none of the rest of the buffer.
pub fn received_from(buf: &Vec<u8>, len: usize) -> (read: ReadOutcome)
    requires
        len <= buf@.len(),
    ensures
        read matches ReadOutcome::Received(bytes) && bytes@ == buf@.take(len as int),
{
    let mut bytes: Vec<u8> = Vec::new();
    let mut i: usize = 0;
    while i < len
        invariant
            i <= len,
            len <= buf@.len(),
            bytes@ == buf@.take(i as int),
        decreases len - i,
    {
        bytes.push(buf[i]);
        i = i + 1;
        assert(bytes@ =~= buf@.take(i as int));
    }
    ReadOutcome::Received(bytes)
}

/// The handler's answer to one read.
pub open spec fn echo_decision(read: ReadOutcome) -> EchoAction {
    match read {
        ReadOutcome::Received(bytes) => if bytes@.len() == 0 {
            EchoAction::Shutdown
        } else {
            EchoAction::Write(bytes)
        },
        ReadOutcome::Failed(kind) => if kind.spec_means_peer_gone() {
            EchoAction::Shutdown
        } else {
            EchoAction::Fail(kind)
        },
    }
}

/// Decides what the echo handler does after a read: bytes are written back
/// as they came; an empty read, or a failure that means the peer went away,
/// ends the session cleanly; any other failure ends it with an error.
pub fn echo_step(read: ReadOutcome) -> (action: EchoAction)
    ensures
        action == echo_decision(read),
{
    match read {
        ReadOutcome::Received(bytes) => {
            if bytes.len() == 0 {
                EchoAction::Shutdown
            } else {
                EchoAction::Write(bytes)
            }
        },
        ReadOutcome::Failed(kind) => {
            if kind.means_peer_gone() {
                EchoAction::Shutdown
            } else {
                EchoAction::Fail(kind)
            }
        },
    }
}

/// The bytes that the peer sent during a session whose reads were `reads`:
/// those of every non-empty read before the first read that ends it.
pub open spec fn bytes_received(reads: Seq<ReadOutcome>) -> Seq<u8>
    decreases reads.len(),
{
    if reads.len() == 0 {
        Seq::empty()
    } else {
        match reads[0] {
            ReadOutcome::Received(bytes) => if bytes@.len() == 0 {
                Seq::empty()
            } else {
                bytes@ + bytes_received(reads.drop_first())
            },
            ReadOutcome::Failed(_) => Seq::empty(),
        }
    }
}

/// The bytes that the handler writes when its reads are `reads`: the
/// payloads of its answers, up to the first answer that is not a write.
pub open spec fn bytes_written(reads: Seq<ReadOutcome>) -> Seq<u8>
    decreases reads.len(),
{
    if reads.len() == 0 {
        Seq::empty()
    } else {
        match echo_decision(reads[0]) {
            EchoAction::Write(bytes) => bytes@ + bytes_written(reads.drop_first()),
            _ => Seq::empty(),
        }
    }
}

/// The answer that ends a session whose reads are `reads`, if one of them
/// ends it.
pub open spec fn session_end(reads: Seq<ReadOutcome>) -> Option<EchoAction>
    decreases reads.len(),
{
    if reads.len() == 0 {
        None
    } else {
        match echo_decision(reads[0]) {
            EchoAction::Write(_) => session_end(reads.drop_first()),
            action => Some(action),
        }
    }
}

/// Echo law: over any session, the bytes written back are exactly the bytes
/// received, in the order received.
pub proof fn lemma_echo_returns_what_it_reads(reads: Seq<ReadOutcome>)
    ensures
        bytes_written(reads) == bytes_received(reads),
    decreases reads.len(),
{
    if reads.len() > 0 {
        lemma_echo_returns_what_it_reads(reads.drop_first());
    }
}

/// What the tunnel handler answers to each read, in terms of the read alone:
/// bytes are written back unchanged; an empty read ends the session cleanly;
/// a failure of kind connection reset, connection refused, connection
/// aborted, broken pipe, not connected or unexpected end of file ends it
/// cleanly; a failure of any other kind ends it with that kind as its error.
pub proof fn lemma_echo_answers(bytes: Vec<u8>, kind: IoErrorKind)
    ensures
        bytes@.len() > 0 ==> echo_decision(ReadOutcome::Received(bytes)) == EchoAction::Write(
            bytes,
        ),
        bytes@.len() == 0 ==> echo_decision(ReadOutcome::Received(bytes)) == EchoAction::Shutdown,
        echo_decision(ReadOutcome::Failed(kind)) == EchoAction::Shutdown <==> (kind == IoErrorKind::ConnectionReset || kind == IoErrorKind::ConnectionRefused || kind
            == IoErrorKind::ConnectionAborted || kind == IoErrorKind::BrokenPipe || kind
            == IoErrorKind::NotConnected || kind == IoErrorKind::UnexpectedEof),
        !(kind == IoErrorKind::ConnectionReset || kind == IoErrorKind::ConnectionRefused || kind
            == IoErrorKind::ConnectionAborted || kind == IoErrorKind::BrokenPipe || kind
            == IoErrorKind::NotConnected || kind == IoErrorKind::UnexpectedEof) ==> echo_decision(ReadOutcome::Failed(kind)) == EchoAction::Fail(kind),
{
}

/// A session ends in failure exactly when its first read that is not a
/// non-empty one failed with a kind that does not mean the peer went away;
/// otherwise such a read ends it cleanly.
pub proof fn lemma_session_end(reads: Seq<ReadOutcome>, i: int)
    requires
        0 <= i < reads.len(),
        forall|j: int| 0 <= j < i ==> #[trigger] echo_decision(reads[j]) is Write,
        !(echo_decision(reads[i]) is Write),
    ensures
        session_end(reads) == Some(echo_decision(reads[i])),
        session_end(reads) matches Some(EchoAction::Fail(kind)) ==> reads[i] == ReadOutcome::Failed(
            kind,
        ) && !kind.spec_means_peer_gone(),
    decreases i,
{
    if i > 0 {
        assert(echo_decision(reads[0]) is Write);
        let rest = reads.drop_first();
        assert forall|j: int| 0 <= j < i - 1 implies #[trigger] echo_decision(rest[j]) is Write by {
            assert(rest[j] == reads[j + 1]);
        }
        assert(rest[i - 1] == reads[i]);
        lemma_session_end(rest, i - 1);
    }
}

/// What the TCP handler does after a read.
#[derive(Debug, PartialEq, Eq)]
pub enum CopyAction {
    /// Write these bytes back to the peer, then read again.
    Write(Vec<u8>),
    /// The read was interrupted before anything arrived: read again.
    ReadAgain,
    /// The peer has closed its side: finish successfully.
    Finish,
    /// Stop and report that reading failed with this kind.
    Fail(IoErrorKind),
}

/// The TCP handler's answer to one read.
pub open spec fn copy_decision(read: ReadOutcome) -> CopyAction {
    match read {
        ReadOutcome::Received(bytes) => if bytes@.len() == 0 {
            CopyAction::Finish
        } else {
            CopyAction::Write(bytes)
        },
        ReadOutcome::Failed(kind) => if kind == IoErrorKind::Interrupted {
            CopyAction::ReadAgain
        } else {
            CopyAction::Fail(kind)
        },
    }
}

/// Decides what the TCP echo handler does after a read, as a stream copy
/// does: bytes are written back as they came; an empty read ends the session
/// successfully; an interrupted read is retried; any other failure ends the
/// session with an error.
pub fn copy_step(read: ReadOutcome) -> (action: CopyAction)
    ensures
        action == copy_decision(read),
{
    match read {
        ReadOutcome::Received(bytes) => {
            if bytes.len() == 0 {
                CopyAction::Finish
            } else {
                CopyAction::Write(bytes)
            }
        },
        ReadOutcome::Failed(kind) => {
            match kind {
                IoErrorKind::Interrupted => CopyAction::ReadAgain,
                _ => CopyAction::Fail(kind),
            }
        },
    }
}

/// The bytes that the peer sent during a TCP session whose reads were
/// `reads`: those of every non-empty read before the first read that ends it,
/// interrupted reads being no end.
pub open spec fn copy_bytes_received(reads: Seq<ReadOutcome>) -> Seq<u8>
    decreases reads.len(),
{
    if reads.len() == 0 {
        Seq::empty()
    } else {
        match reads[0] {
            ReadOutcome::Received(bytes) => if bytes@.len() == 0 {
                Seq::empty()
            } else {
                bytes@ + copy_bytes_received(reads.drop_first())
            },
            ReadOutcome::Failed(kind) => if kind == IoErrorKind::Interrupted {
                copy_bytes_received(reads.drop_first())
            } else {
                Seq::empty()
            },
        }
    }
}

/// The bytes that the TCP handler writes when its reads are `reads`: the
/// payloads of its answers, up to the first answer that ends the session.
pub open spec fn copy_bytes_written(reads: Seq<ReadOutcome>) -> Seq<u8>
    decreases reads.len(),
{
    if reads.len() == 0 {
        Seq::empty()
    } else {
        match copy_decision(reads[0]) {
            CopyAction::Write(bytes) => bytes@ + copy_bytes_written(reads.drop_first()),
            CopyAction::ReadAgain => copy_bytes_written(reads.drop_first()),
            _ => Seq::empty(),
        }
    }
}

/// Echo law of the TCP handler: over any session, the bytes written back are
/// exactly the bytes received, in the order received, interrupted reads
/// adding nothing and ending nothing.
pub proof fn lemma_copy_returns_what_it_reads(reads: Seq<ReadOutcome>)
    ensures
        copy_bytes_written(reads) == copy_bytes_received(reads),
    decreases reads.len(),
{
    if reads.len() > 0 {
        lemma_copy_returns_what_it_reads(reads.drop_first());
    }
}

/// The TCP handler ends a session with an error exactly on a failed read
/// that was not interrupted, whatever kind the failure is; an empty read is
/// its only successful end.
pub proof fn lemma_copy_reports_failures(read: ReadOutcome)
    ensures
        copy_decision(read) is Fail <==> (read matches ReadOutcome::Failed(kind) && kind
            != IoErrorKind::Interrupted),
        copy_decision(read) is Finish <==> (read matches ReadOutcome::Received(bytes) && bytes@.len()
            == 0),
{
}

} // verus!
