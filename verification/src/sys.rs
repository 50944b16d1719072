//! The constants of the kernel's readiness interface that the library
//! computes with, read from `libc` as it defines them for Linux.
//!
//! Nothing here is proved: each function states the value that `libc`
//! gives the constant it returns.

use vstd::prelude::*;

verus! {

/// Returns `libc::EPOLLIN`, the readiness flag of a descriptor with data to
/// read. Claims that its value is 0x1.
#[verifier::external_body]
pub(crate) fn epollin() -> (flag: i32)
    ensures
        flag == 0x1,
{
    libc::EPOLLIN
}

/// Returns `libc::EPOLLPRI`, the readiness flag of a descriptor with an
/// exceptional condition. Claims that its value is 0x2.
#[verifier::external_body]
pub(crate) fn epollpri() -> (flag: i32)
    ensures
        flag == 0x2,
{
    libc::EPOLLPRI
}

/// Returns `libc::EPOLLHUP`, the readiness flag of a descriptor whose peer
/// hung up. Claims that its value is 0x10.
#[verifier::external_body]
pub(crate) fn epollhup() -> (flag: i32)
    ensures
        flag == 0x10,
{
    libc::EPOLLHUP
}

/// Returns `libc::EPOLLET`, the flag that asks for edge-triggered
/// notification. Claims that its value is the sign bit alone, which in an
/// `i32` is the least value.
#[verifier::external_body]
pub(crate) fn epollet() -> (flag: i32)
    ensures
        flag == i32::MIN,
{
    libc::EPOLLET
}

/// Returns `libc::EPOLL_CTL_ADD`, the operation that registers a
/// descriptor. Claims that its value is 1.
#[verifier::external_body]
pub(crate) fn epoll_ctl_add() -> (op: i32)
    ensures
        op == 1,
{
    libc::EPOLL_CTL_ADD
}

/// Returns `libc::EPOLL_CTL_DEL`, the operation that removes a
/// descriptor. Claims that its value is 2.
#[verifier::external_body]
pub(crate) fn epoll_ctl_del() -> (op: i32)
    ensures
        op == 2,
{
    libc::EPOLL_CTL_DEL
}

/// Returns `libc::EAGAIN`, the error number of an operation that would
/// block. Claims that its value is 11, as it is on Linux.
#[verifier::external_body]
pub(crate) fn eagain() -> (errno: i32)
    ensures
        errno == 11,
{
    libc::EAGAIN
}

} // verus!
