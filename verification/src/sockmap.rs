//! Key discipline of the kernel socket-redirect fast path.
//!
//! Two in-kernel programs cooperate through one map from a connection
//! 4-tuple to a socket reference. The installer runs on socket state
//! changes and, exactly on the two established callbacks, stores the
//! current socket under a key built from its own viewpoint (source =
//! remote peer, destination = local end). The redirector runs on every
//! send and looks the receiving socket up under a key built from the
//! sender's viewpoint (source = local end, destination = remote peer).
//! The functions here decide what each program does; the lemma at the
//! bottom shows the two viewpoints meet: the key a sender builds is
//! exactly the key under which the receiving end installed its socket.

use vstd::prelude::*;

verus! {

/// Socket-operation callback: passive side of a connection reached the
/// established state.
pub const SOCK_OPS_PASSIVE_ESTABLISHED_CB: u32 = 4;

/// Socket-operation callback: active side of a connection reached the
/// established state.
pub const SOCK_OPS_ACTIVE_ESTABLISHED_CB: u32 = 5;

/// Verdict returned by the send-message program: let the message
/// proceed (the redirect helper, when it finds a peer, has already
/// queued the data on the peer's ingress side).
pub const SK_PASS_CODE: u32 = 1;

/// Bound on the number of entries the kernel socket map is created with.
pub const SOCK_MAP_MAX_ENTRIES: u32 = 1024;

/// Index into the kernel socket map: the 4-tuple of a TCP connection as
/// seen from one of its ends, plus a length field kept for layout
/// compatibility with the kernel-side record.
#[derive(Copy, Clone, PartialEq, Eq, Structural, Debug)]
pub struct PacketLog {
    pub ipv4_src: u32,
    pub ipv4_dst: u32,
    pub port_src: u16,
    pub port_dst: u16,
    pub len: u32,
}

/// The installer reacts only to the two established callbacks; every
/// other socket operation passes through untouched.
pub fn is_established_callback(op: u32) -> (r: bool)
    ensures
        r == (op == SOCK_OPS_PASSIVE_ESTABLISHED_CB || op == SOCK_OPS_ACTIVE_ESTABLISHED_CB),
{
    op == SOCK_OPS_PASSIVE_ESTABLISHED_CB || op == SOCK_OPS_ACTIVE_ESTABLISHED_CB
}

/// Key under which the installer stores a just-established socket:
/// source is the remote peer, destination is the local end.
pub open spec fn spec_install_key(
    remote_ip: u32,
    local_ip: u32,
    remote_port: u16,
    local_port: u16,
) -> PacketLog {
    PacketLog {
        ipv4_src: remote_ip,
        ipv4_dst: local_ip,
        port_src: remote_port,
        port_dst: local_port,
        len: 0,
    }
}

/// Key under which the redirector looks the peer socket up when the
/// local end sends: source is the local end, destination is the remote
/// peer.
pub open spec fn spec_redirect_key(
    local_ip: u32,
    remote_ip: u32,
    local_port: u16,
    remote_port: u16,
) -> PacketLog {
    PacketLog {
        ipv4_src: local_ip,
        ipv4_dst: remote_ip,
        port_src: local_port,
        port_dst: remote_port,
        len: 0,
    }
}

/// What the socket-operation program does: on an established callback,
/// install the socket under the installer's key; on anything else, do
/// nothing. The caller performs the map update for `Some` results.
pub fn sockmap_install_decision(
    op: u32,
    remote_ip: u32,
    local_ip: u32,
    remote_port: u16,
    local_port: u16,
) -> (r: Option<PacketLog>)
    ensures
        (op == SOCK_OPS_PASSIVE_ESTABLISHED_CB || op == SOCK_OPS_ACTIVE_ESTABLISHED_CB)
            <==> r is Some,
        r is Some ==> r->Some_0 == spec_install_key(remote_ip, local_ip, remote_port, local_port),
{
    if is_established_callback(op) {
        Some(PacketLog {
            ipv4_src: remote_ip,
            ipv4_dst: local_ip,
            port_src: remote_port,
            port_dst: local_port,
            len: 0,
        })
    } else {
        None
    }
}

/// What the send-message program does: always ask for a redirect under
/// the sender-viewpoint key, and always return the pass verdict, so
/// that on a lookup miss the message proceeds through the normal stack.
pub fn redirect_decision(local_ip: u32, remote_ip: u32, local_port: u16, remote_port: u16) -> (r: (
    PacketLog,
    u32,
))
    ensures
        r.0 == spec_redirect_key(local_ip, remote_ip, local_port, remote_port),
        r.1 == SK_PASS_CODE,
{
    (
        PacketLog {
            ipv4_src: local_ip,
            ipv4_dst: remote_ip,
            port_src: local_port,
            port_dst: remote_port,
            len: 0,
        },
        SK_PASS_CODE,
    )
}

/// The two key constructions are symmetric: for one TCP connection
/// between ends A and B, the key end A's redirector builds when A sends
/// is exactly the key under which the installer stored end B's socket.
/// A bug in this symmetry would cause silent lookup misses and degrade
/// every send to the normal stack.
pub proof fn lemma_redirect_key_finds_peer_entry(
    a_ip: u32,
    a_port: u16,
    b_ip: u32,
    b_port: u16,
)
    ensures
        spec_redirect_key(a_ip, b_ip, a_port, b_port) == spec_install_key(
            a_ip,
            b_ip,
            a_port,
            b_port,
        ),
{
}

} // verus!
