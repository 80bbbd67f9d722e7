//! Dual-stack socket support for the module's connection object.
//!
//! The module's own socket code is IPv4-only. Five of its routines are
//! rewritten into jumps to replacement handlers: socket construction (now
//! dual-stack with the v6-only restriction disabled), connect (modern
//! resolution preferring mapped addressing), send, receive, and server
//! address validation. The handlers run the operating system's socket
//! calls; the decisions around those calls — which resolution to request,
//! which resolved families to accept, and how to map result codes back to
//! the module's conventions — are here.

use crate::encoder::{jmp_rel32_bytes, make_jmp_rel32};
use crate::plan::PatchWrite;
use crate::reloc::{adjust_spec, PatchContext};
use vstd::prelude::*;

verus! {

/// Static address of the module's socket constructor.
pub const SOCKET_CTOR_ENTRY: usize = 0x37232EB9;

/// Static address of the module's receive routine.
pub const RECV_ENTRY: usize = 0x37232FDD;

/// Static address of the module's send routine.
pub const SEND_ENTRY: usize = 0x37233000;

/// Static address of the module's connect routine.
pub const CONNECT_ENTRY: usize = 0x37232F1D;

/// Static address of the module's server-address validation routine.
pub const VALIDATE_ADDRESS_ENTRY: usize = 0x3722C405;

/// The IPv6 address family; dual-stack sockets and mapped IPv4 addresses
/// both carry it.
pub const AF_INET6_FAMILY: i32 = 23;

/// Resolution flag asking for IPv4 results as mapped IPv6 addresses.
pub const V4_MAPPED_FLAG: i32 = 8;

/// Stream socket type.
pub const STREAM_SOCKET_TYPE: i32 = 1;

/// TCP protocol number.
pub const TCP_PROTOCOL: i32 = 6;

/// The socket-level error sentinel.
pub const SOCKET_ERROR_CODE: i32 = -1;

/// The would-block error: a non-blocking operation that is pending, not
/// failed.
pub const WOULD_BLOCK_ERROR: i32 = 10035;

/// Index, in pointer-sized slots from the connection object's base, of the
/// slot the module keeps its socket handle in.
pub const SOCKET_HANDLE_SLOT: usize = 3;

/// Index, in the connection object's virtual table, of its destructor.
pub const VTABLE_DESTRUCTOR_SLOT: usize = 8;

/// The resolution request the connect handler makes: family, flags, socket
/// type, protocol.
#[derive(Clone, Copy, Debug, PartialEq, Eq, Structural)]
pub struct ResolveHints {
    pub family: i32,
    pub flags: i32,
    pub socktype: i32,
    pub protocol: i32,
}

/// The hints for dual-stack resolution: IPv6 with mapped IPv4, stream, TCP.
/// A v4-only name then resolves to a mapped address that still carries the
/// IPv6 family.
pub fn dual_stack_hints() -> (h: ResolveHints)
    ensures
        h.family == AF_INET6_FAMILY,
        h.flags == V4_MAPPED_FLAG,
        h.socktype == STREAM_SOCKET_TYPE,
        h.protocol == TCP_PROTOCOL,
{
    ResolveHints {
        family: AF_INET6_FAMILY,
        flags: V4_MAPPED_FLAG,
        socktype: STREAM_SOCKET_TYPE,
        protocol: TCP_PROTOCOL,
    }
}

/// Whether a resolved address family may be connected to: only the IPv6
/// family, which under mapped resolution also covers IPv4 names. Anything
/// else — an unexpected family, a non-IP socket — is rejected.
pub fn is_supported_family(family: i32) -> (r: bool)
    ensures
        r == (family == AF_INET6_FAMILY),
{
    family == AF_INET6_FAMILY
}

/// Whether a connect call's outcome counts as accepted: either the call
/// returned something other than the error sentinel, or it reported
/// would-block, which under non-blocking operation means the connect is
/// pending.
pub fn connect_accepted(connect_result: i32, last_error: i32) -> (r: bool)
    ensures
        r == (connect_result != SOCKET_ERROR_CODE || last_error == WOULD_BLOCK_ERROR),
{
    connect_result != SOCKET_ERROR_CODE || last_error == WOULD_BLOCK_ERROR
}

/// Whether a send call's outcome counts as success, under the same
/// would-block rule as connect.
pub fn send_succeeded(send_result: i32, last_error: i32) -> (r: bool)
    ensures
        r == (send_result != SOCKET_ERROR_CODE || last_error == WOULD_BLOCK_ERROR),
{
    send_result != SOCKET_ERROR_CODE || last_error == WOULD_BLOCK_ERROR
}

/// The byte count the receive handler reports to the module: the received
/// count (or zero for an orderly close) as-is; the error sentinel is kept
/// as an error, except that would-block — a pending non-blocking read, not
/// a failure — is reported as zero, nothing received.
pub fn recv_reported_count(recv_result: i32, last_error: i32) -> (r: i32)
    ensures
        r == (if recv_result == SOCKET_ERROR_CODE {
            if last_error == WOULD_BLOCK_ERROR {
                0i32
            } else {
                SOCKET_ERROR_CODE
            }
        } else {
            recv_result
        }),
{
    if recv_result == SOCKET_ERROR_CODE {
        if last_error == WOULD_BLOCK_ERROR {
            0
        } else {
            SOCKET_ERROR_CODE
        }
    } else {
        recv_result
    }
}

/// Runtime addresses of the five replacement handlers.
#[derive(Clone, Copy, Debug, PartialEq, Eq, Structural)]
pub struct SocketHooks {
    pub socket_ctor: usize,
    pub recv: usize,
    pub send: usize,
    pub connect: usize,
    pub validate_address: usize,
}

/// Plan for this group: rewrite each of the five socket entry points into a
/// jump to its replacement handler. The constructor comes first: the hooks
/// after it assume the socket layout it establishes.
pub fn init(ctx: &PatchContext, hooks: &SocketHooks) -> (plan: Vec<PatchWrite>)
    ensures
        plan@.len() == 5,
        plan@[0].address == adjust_spec(SOCKET_CTOR_ENTRY, ctx.spec_delta()),
        plan@[0].bytes@ == jmp_rel32_bytes(plan@[0].address, hooks.socket_ctor),
        plan@[1].address == adjust_spec(RECV_ENTRY, ctx.spec_delta()),
        plan@[1].bytes@ == jmp_rel32_bytes(plan@[1].address, hooks.recv),
        plan@[2].address == adjust_spec(SEND_ENTRY, ctx.spec_delta()),
        plan@[2].bytes@ == jmp_rel32_bytes(plan@[2].address, hooks.send),
        plan@[3].address == adjust_spec(CONNECT_ENTRY, ctx.spec_delta()),
        plan@[3].bytes@ == jmp_rel32_bytes(plan@[3].address, hooks.connect),
        plan@[4].address == adjust_spec(VALIDATE_ADDRESS_ENTRY, ctx.spec_delta()),
        plan@[4].bytes@ == jmp_rel32_bytes(plan@[4].address, hooks.validate_address),
{
    let mut plan: Vec<PatchWrite> = Vec::new();
    let a0 = ctx.adjust(SOCKET_CTOR_ENTRY);
    plan.push(PatchWrite { address: a0, bytes: make_jmp_rel32(a0, hooks.socket_ctor) });
    let a1 = ctx.adjust(RECV_ENTRY);
    plan.push(PatchWrite { address: a1, bytes: make_jmp_rel32(a1, hooks.recv) });
    let a2 = ctx.adjust(SEND_ENTRY);
    plan.push(PatchWrite { address: a2, bytes: make_jmp_rel32(a2, hooks.send) });
    let a3 = ctx.adjust(CONNECT_ENTRY);
    plan.push(PatchWrite { address: a3, bytes: make_jmp_rel32(a3, hooks.connect) });
    let a4 = ctx.adjust(VALIDATE_ADDRESS_ENTRY);
    plan.push(PatchWrite { address: a4, bytes: make_jmp_rel32(a4, hooks.validate_address) });
    plan
}

} // verus!
