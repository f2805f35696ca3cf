//! Reading a snapshot: what becomes of the kernel query's outcome and of the
//! socket-option reads, and the status of the reply to the request.
use vstd::prelude::*;

use crate::snapshot::{RawTcpInfo, TcpConnectionInfo};

verus! {

/// A socket flag read on a best-effort basis: set only when the read
/// succeeded and reported it set.
pub open spec fn flag_of(read: Option<bool>) -> bool {
    read == Some(true)
}

/// The outcome of a snapshot read: nothing when the kernel query reported a
/// non-zero status; otherwise a snapshot of the whole record, the request's
/// addresses and the two flags.
pub open spec fn query_outcome(
    status: i32,
    raw: &RawTcpInfo,
    local_addr: String,
    peer_addr: Option<String>,
    nodelay: Option<bool>,
    keepalive: Option<bool>,
    r: Option<TcpConnectionInfo>,
) -> bool {
    match r {
        None => status != 0,
        Some(info) => {
            &&& status == 0
            &&& info.decodes(raw)
            &&& info.local_addr == local_addr
            &&& info.peer_addr == peer_addr
            &&& info.tcp_nodelay == flag_of(nodelay)
            &&& info.keepalive == flag_of(keepalive)
        },
    }
}

/// The HTTP status of the reply to a snapshot request: 200 with the
/// snapshot, 500 without one.
pub open spec fn reply_code(snapshot: Option<TcpConnectionInfo>) -> u16 {
    if snapshot is Some {
        200
    } else {
        500
    }
}

/// Resolves a best-effort flag read: a failed read counts as unset.
pub fn flag_or_unset(read: Option<bool>) -> (r: bool)
    ensures
        r == flag_of(read),
{
    match read {
        Some(b) => b,
        None => false,
    }
}

/// Builds the snapshot from the kernel query's status and record, the
/// request's addresses and the two flag reads; a failed query gives none.
pub fn snapshot_from_query(
    status: i32,
    raw: &RawTcpInfo,
    local_addr: String,
    peer_addr: Option<String>,
    nodelay: Option<bool>,
    keepalive: Option<bool>,
) -> (r: Option<TcpConnectionInfo>)
    ensures
        query_outcome(status, raw, local_addr, peer_addr, nodelay, keepalive, r),
        r is Some <==> status == 0,
{
    if status != 0 {
        return None;
    }
    let tcp_nodelay = flag_or_unset(nodelay);
    let keepalive = flag_or_unset(keepalive);
    Some(TcpConnectionInfo::from_raw(raw, local_addr, peer_addr, tcp_nodelay, keepalive))
}

/// The status of the reply that carries `snapshot`.
pub fn reply_status(snapshot: &Option<TcpConnectionInfo>) -> (code: u16)
    ensures
        code == reply_code(*snapshot),
{
    match snapshot {
        Some(_) => 200,
        None => 500,
    }
}

/// A failed kernel query never yields a snapshot, and the reply is then a
/// 500; a successful one always yields a snapshot, replied with 200.
pub proof fn lemma_failed_query_is_server_error(
    status: i32,
    raw: &RawTcpInfo,
    local_addr: String,
    peer_addr: Option<String>,
    nodelay: Option<bool>,
    keepalive: Option<bool>,
    r: Option<TcpConnectionInfo>,
)
    requires
        query_outcome(status, raw, local_addr, peer_addr, nodelay, keepalive, r),
    ensures
        status != 0 ==> r is None && reply_code(r) == 500,
        status == 0 ==> r is Some && reply_code(r) == 200,
{
}

} // verus!
