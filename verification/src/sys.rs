use vstd::prelude::*;
use std::io::Write as IoWrite;
use nix::sys::socket::{recvmsg, sendmsg, ControlMessage, ControlMessageOwned, MsgFlags, UnixAddr};
use crate::error::SysError;

verus! {

/// Relies on nix::sys::socket::socketpair (a full-duplex Unix stream pair):
/// on success the kernel installs two new, distinct descriptor-table entries,
/// so both values are non-negative and differ from each other.
#[verifier::external_body]
pub(crate) fn sys_socketpair() -> (r: Result<(i32, i32), SysError>)
    ensures
        r matches Ok(p) ==> p.0 >= 0 && p.1 >= 0 && p.0 != p.1,
{
    nix::sys::socket::socketpair(
        nix::sys::socket::AddressFamily::Unix,
        nix::sys::socket::SockType::Stream,
        None,
        nix::sys::socket::SockFlag::empty(),
    )
    .map_err(|e| SysError { errno: e as i32 })
}

/// Relies on nix::unistd::pipe: on success the kernel installs two new,
/// distinct descriptor-table entries, the read end first, so both values are
/// non-negative and differ from each other.
#[verifier::external_body]
pub(crate) fn sys_pipe() -> (r: Result<(i32, i32), SysError>)
    ensures
        r matches Ok(p) ==> p.0 >= 0 && p.1 >= 0 && p.0 != p.1,
{
    nix::unistd::pipe().map_err(|e| SysError { errno: e as i32 })
}

/// Relies on nix::unistd::close to release one descriptor; nothing is
/// promised of the outcome, the caller decides what a failure means.
#[verifier::external_body]
pub(crate) fn sys_close(fd: i32) -> (r: Result<(), SysError>)
    opens_invariants none
    no_unwind
{
    nix::unistd::close(fd).map_err(|e| SysError { errno: e as i32 })
}

/// Relies on nix::unistd::read: on success the kernel filled at most `want`
/// bytes; an empty result means end of stream.
#[verifier::external_body]
pub(crate) fn sys_read(fd: i32, want: usize) -> (r: Result<Vec<u8>, SysError>)
    ensures
        r matches Ok(v) ==> v@.len() <= want,
{
    let mut buf = vec![0u8; want];
    let n = nix::unistd::read(fd, buf.as_mut_slice()).map_err(|e| SysError { errno: e as i32 })?;
    buf.truncate(n);
    Ok(buf)
}

/// Relies on nix::unistd::write: on success the kernel consumed a prefix of
/// the buffer and reports its length, which is at most `buf.len()`.
#[verifier::external_body]
pub(crate) fn sys_write(fd: i32, buf: &[u8]) -> (r: Result<usize, SysError>)
    ensures
        r matches Ok(n) ==> n <= buf@.len(),
{
    nix::unistd::write(fd, buf).map_err(|e| SysError { errno: e as i32 })
}

/// Relies on nix::sys::socket::sendmsg: on success the kernel consumed a
/// prefix of the buffer of the reported length, at most `buf.len()`; when a
/// descriptor is given it is transferred as ancillary data bound to this very
/// call (one descriptor per call, the transfer mechanism's own limit).
#[verifier::external_body]
pub(crate) fn sys_sendmsg(fd: i32, buf: &[u8], attach: Option<i32>) -> (r: Result<
    usize,
    SysError,
>)
    ensures
        r matches Ok(n) ==> n <= buf@.len(),
{
    let iov = [std::io::IoSlice::new(buf)];
    let fds = [attach.unwrap_or(-1)];
    let scm = [ControlMessage::ScmRights(&fds)];
    let cmsgs: &[ControlMessage] = if attach.is_some() { &scm } else { &[] };
    sendmsg::<UnixAddr>(fd, &iov, cmsgs, MsgFlags::empty(), None)
        .map_err(|e| SysError { errno: e as i32 })
}

/// Relies on nix::sys::socket::recvmsg: on success the kernel filled at most
/// `want` bytes (0 meaning end of stream) and delivered at most one ancillary
/// descriptor, freshly installed in this process's table and therefore
/// non-negative. The protocol attaches one descriptor per message; should a
/// malformed batch deliver more, the last is kept and the earlier ones are
/// closed so they cannot leak.
#[verifier::external_body]
pub(crate) fn sys_recvmsg(fd: i32, want: usize) -> (r: Result<
    (Vec<u8>, Option<i32>),
    SysError,
>)
    ensures
        r matches Ok(p) ==> p.0@.len() <= want,
        r matches Ok(p) ==> (p.1 matches Some(a) ==> a >= 0),
{
    let mut buf = vec![0u8; want];
    let mut cspace: Vec<u8> = Vec::with_capacity(128);
    let mut iov = [std::io::IoSliceMut::new(buf.as_mut_slice())];
    let msg = recvmsg::<UnixAddr>(fd, &mut iov, Some(&mut cspace), MsgFlags::empty())
        .map_err(|e| SysError { errno: e as i32 })?;
    let (n, mut got): (usize, Option<i32>) = (msg.bytes, None);
    for c in msg.cmsgs() {
        if let ControlMessageOwned::ScmRights(fds) = c {
            for f in fds {
                if let Some(prev) = got.replace(f) { let _ = nix::unistd::close(prev); }
            }
        }
    }
    buf.truncate(n);
    Ok((buf, got))
}

/// Relies on std::io::stdout (with the writeln macro) to emit one diagnostic
/// line; the descriptor value is only printed, never touched.
#[verifier::external_body]
pub(crate) fn log_fd_event(what: &str, fd: i32)
    opens_invariants none
    no_unwind
{
    let _ = writeln!(std::io::stdout(), "{}: {}", what, fd);
}

} // verus!
