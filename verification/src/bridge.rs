//! The tunnel bridge.
//!
//! One session pairs a local TCP endpoint with an overlay stream and
//! copies bytes between them in both directions until either side closes
//! or fails, reporting how many bytes crossed in each direction. Two
//! loops create sessions: the sharer-side acceptance loop, gated by the
//! access-control list, and the user-side local listener. A rejected or
//! failed attempt is confined to that attempt; the loops outlive it.
//!
//! The sockets and streams themselves live outside the library. Here a
//! session is modelled on the byte sequences each side produces, and the
//! loops on the sequence of attempts they serve; what is proved is the
//! accounting, the gating and the per-attempt isolation.

use vstd::prelude::*;

use crate::acl::{acl_accepts, AccessControlList};
use crate::bytes::copy_bytes;

verus! {

/// What one finished session reports: the bytes forwarded in each
/// direction and their counts.
pub struct SessionReport {
    /// Bytes the local endpoint produced, forwarded to the overlay stream.
    pub to_remote: Vec<u8>,
    /// Bytes the overlay stream produced, forwarded to the local endpoint.
    pub to_local: Vec<u8>,
    /// How many bytes the local endpoint sent.
    pub bytes_from_local: u64,
    /// How many bytes the overlay stream sent.
    pub bytes_from_remote: u64,
}

/// A correct report for a session whose local side produced `from_local`
/// and whose remote side produced `from_remote`: every byte is forwarded
/// to the opposite side unchanged and in order, and the counters equal
/// the number of bytes actually transferred.
pub open spec fn session_report_ok(r: SessionReport, from_local: Seq<u8>, from_remote: Seq<u8>) -> bool {
    &&& r.to_remote@ == from_local
    &&& r.to_local@ == from_remote
    &&& r.bytes_from_local == from_local.len()
    &&& r.bytes_from_remote == from_remote.len()
}

/// One tunnel-bridge session over the bytes each side produces before it
/// reaches end-of-stream: both directions are forwarded without
/// reordering, and the byte counters are exact.
pub fn tunnel_session(from_local: &Vec<u8>, from_remote: &Vec<u8>) -> (r: SessionReport)
    ensures
        session_report_ok(r, from_local@, from_remote@),
{
    let to_remote = copy_bytes(from_local);
    let to_local = copy_bytes(from_remote);
    let bytes_from_local = to_remote.len() as u64;
    let bytes_from_remote = to_local.len() as u64;
    SessionReport { to_remote, to_local, bytes_from_local, bytes_from_remote }
}

/// One inbound stream offered to the sharer-side acceptance loop: the
/// peer that opened it (textual identifier as bytes), the bytes each side
/// would produce, and whether the session's I/O runs to end-of-stream
/// (`io_ok` false models a failed proxy connect or a copy error).
pub struct InboundAttempt {
    /// The peer that opened the stream.
    pub peer: Vec<u8>,
    /// Bytes the local forward-proxy connection produces.
    pub from_local: Vec<u8>,
    /// Bytes the peer's overlay stream produces.
    pub from_remote: Vec<u8>,
    /// Whether the session's I/O completes without error.
    pub io_ok: bool,
}

/// The fate of one inbound attempt.
pub enum InboundOutcome {
    /// The access-control gate rejected the peer; nothing was forwarded
    /// to the local proxy.
    Rejected,
    /// The peer was authorized, but the session failed on an I/O error;
    /// only this session ended.
    SessionFailed,
    /// The session ran to end-of-stream; its report.
    Completed(SessionReport),
}

/// The outcome owed to one inbound attempt: rejection exactly when the
/// gate refuses the peer, failure exactly on an I/O error, otherwise a
/// completed session with an exact report.
pub open spec fn inbound_outcome_ok(acl: Seq<Seq<u8>>, a: InboundAttempt, o: InboundOutcome) -> bool {
    if !acl_accepts(acl, a.peer@) {
        o is Rejected
    } else if !a.io_ok {
        o is SessionFailed
    } else {
        o matches InboundOutcome::Completed(r) && session_report_ok(r, a.from_local@, a.from_remote@)
    }
}

/// The sharer-side acceptance loop over a sequence of inbound streams:
/// every attempt gets an outcome — a rejected or failed attempt never
/// terminates the loop — rejected peers' streams are not forwarded, and
/// accepted, error-free sessions report exact byte counts.
pub fn process_inbound_streams(acl: &AccessControlList, attempts: &Vec<InboundAttempt>) -> (outcomes:
    Vec<InboundOutcome>)
    ensures
        outcomes@.len() == attempts@.len(),
        forall|i: int|
            0 <= i < attempts@.len() ==> inbound_outcome_ok(
                acl@,
                attempts@[i],
                #[trigger] outcomes@[i],
            ),
{
    let mut outcomes: Vec<InboundOutcome> = Vec::new();
    let mut i: usize = 0;
    while i < attempts.len()
        invariant
            i <= attempts@.len(),
            outcomes@.len() == i,
            forall|k: int|
                0 <= k < i ==> inbound_outcome_ok(acl@, attempts@[k], #[trigger] outcomes@[k]),
        decreases attempts@.len() - i,
    {
        let attempt = &attempts[i];
        if !acl.accepts(&attempt.peer) {
            outcomes.push(InboundOutcome::Rejected);
        } else if !attempt.io_ok {
            outcomes.push(InboundOutcome::SessionFailed);
        } else {
            let report = tunnel_session(&attempt.from_local, &attempt.from_remote);
            outcomes.push(InboundOutcome::Completed(report));
        }
        i += 1;
    }
    outcomes
}

/// How opening the overlay stream for one local connection went.
pub enum StreamOpenResult {
    /// The stream to the sharer opened.
    Opened,
    /// The sharer does not support the tunnel protocol.
    UnsupportedProtocol,
    /// Any other open failure.
    OtherFailure,
}

/// One connection accepted by the user-side local listener: how the
/// overlay stream open went, the bytes each side would produce, and
/// whether the session's I/O runs to end-of-stream.
pub struct LocalConnection {
    /// The outcome of opening the overlay stream to the sharer.
    pub open_result: StreamOpenResult,
    /// Bytes the local application connection produces.
    pub from_local: Vec<u8>,
    /// Bytes the sharer's overlay stream produces.
    pub from_remote: Vec<u8>,
    /// Whether the session's I/O completes without error.
    pub io_ok: bool,
}

/// The fate of one local connection.
pub enum ConnectionOutcome {
    /// The overlay stream could not be opened; this one connection was
    /// dropped and the listener went on.
    NotOpened,
    /// The stream opened but the session failed on an I/O error; only
    /// this session ended.
    SessionFailed,
    /// The session ran to end-of-stream; its report.
    Completed(SessionReport),
}

/// The outcome owed to one local connection.
pub open spec fn connection_outcome_ok(c: LocalConnection, o: ConnectionOutcome) -> bool {
    if !(c.open_result is Opened) {
        o is NotOpened
    } else if !c.io_ok {
        o is SessionFailed
    } else {
        o matches ConnectionOutcome::Completed(r) && session_report_ok(r, c.from_local@, c.from_remote@)
    }
}

/// The user-side listener loop over a sequence of accepted local
/// connections: every connection gets an outcome — a failed stream open
/// or a failed session never terminates the listener — and error-free
/// sessions report exact byte counts.
pub fn process_local_connections(conns: &Vec<LocalConnection>) -> (outcomes: Vec<ConnectionOutcome>)
    ensures
        outcomes@.len() == conns@.len(),
        forall|i: int|
            0 <= i < conns@.len() ==> connection_outcome_ok(conns@[i], #[trigger] outcomes@[i]),
{
    let mut outcomes: Vec<ConnectionOutcome> = Vec::new();
    let mut i: usize = 0;
    while i < conns.len()
        invariant
            i <= conns@.len(),
            outcomes@.len() == i,
            forall|k: int| 0 <= k < i ==> connection_outcome_ok(conns@[k], #[trigger] outcomes@[k]),
        decreases conns@.len() - i,
    {
        let conn = &conns[i];
        let opened = match conn.open_result {
            StreamOpenResult::Opened => true,
            StreamOpenResult::UnsupportedProtocol => false,
            StreamOpenResult::OtherFailure => false,
        };
        if !opened {
            outcomes.push(ConnectionOutcome::NotOpened);
        } else if !conn.io_ok {
            outcomes.push(ConnectionOutcome::SessionFailed);
        } else {
            let report = tunnel_session(&conn.from_local, &conn.from_remote);
            outcomes.push(ConnectionOutcome::Completed(report));
        }
        i += 1;
    }
    outcomes
}

} // verus!
