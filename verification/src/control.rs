use vstd::prelude::*;
use core::marker::PhantomData;
use crate::error::SysError;
use crate::pipe::{closes_on_drop, is_sentinel, is_std_stream, End, Read, Write};
use crate::sys;

verus! {

/// One end of a control channel: the owning wrapper around a single raw
/// descriptor of the full-duplex socket pair, tagged with the direction this
/// process uses it in. Lifecycle discipline is the same as for a pipe end:
/// released exactly once, on scope exit or by an explicit `close`, unless
/// `forget` detaches it first.
#[derive(Debug)]
pub struct CtlEnd<E: End> {
    raw_fd: i32,
    dir: PhantomData<E>,
}

impl<E: End> CtlEnd<E> {
    /// The raw descriptor value this wrapper currently holds.
    pub closed spec fn raw(&self) -> int {
        self.raw_fd as int
    }

    /// Wrap an already-obtained raw descriptor; no validation beyond the
    /// direction tag the caller chose.
    pub fn from_raw(raw_fd: i32) -> (r: Self)
        ensures
            r.raw() == raw_fd as int,
    {
        Self { raw_fd, dir: PhantomData }
    }

    /// Observe the raw value without transferring ownership.
    pub fn raw_fd(&self) -> (r: i32)
        ensures
            r as int == self.raw(),
    {
        self.raw_fd
    }

    /// Detach without closing: the wrapper holds the sentinel afterwards, so
    /// neither drop nor a later `close` touches the descriptor again. Used
    /// when the descriptor has been handed elsewhere, for example dup'd onto
    /// a standard stream or sent to another process. Idempotent: on a
    /// wrapper already at the sentinel it changes nothing.
    pub fn forget(&mut self)
        ensures
            final(self).raw() == -1,
            old(self).raw() == -1 ==> *final(self) == *old(self),
    {
        self.raw_fd = -1;
    }

    /// Release the descriptor now. A wrapper already holding the sentinel
    /// reports success without any syscall; in every case the wrapper holds
    /// the sentinel afterwards, so a later drop issues no second close.
    pub fn close(&mut self) -> (r: Result<(), SysError>)
        ensures
            final(self).raw() == -1,
            is_sentinel(old(self).raw()) ==> r is Ok,
    {
        if self.raw_fd < 0 {
            self.raw_fd = -1;
            return Ok(());
        }
        let res = sys::sys_close(self.raw_fd);
        self.raw_fd = -1;
        res
    }

    /// The drop path: issues the close syscall exactly when `closes_on_drop`
    /// holds of the current raw value — never for the sentinel, never for a
    /// standard stream — and leaves the sentinel behind. A close failure is
    /// only logged: during teardown there is no caller to report to.
    fn release_on_drop(&mut self) -> (closed: bool)
        ensures
            final(self).raw() == -1,
            closed == closes_on_drop(old(self).raw()),
        opens_invariants none
        no_unwind
    {
        let mut closed = false;
        if self.raw_fd > 2 {
            sys::log_fd_event("closing fd", self.raw_fd);
            match sys::sys_close(self.raw_fd) {
                Ok(_) => {},
                Err(_) => {
                    sys::log_fd_event("error closing file handle", self.raw_fd);
                },
            }
            closed = true;
        }
        self.raw_fd = -1;
        closed
    }
}

impl<E: End> Drop for CtlEnd<E> {
    fn drop(&mut self)
        opens_invariants none
        no_unwind
    {
        let _ = self.release_on_drop();
    }
}

/// Dropping a control end that was explicitly closed or forgotten (it holds
/// the sentinel) issues no second close syscall: the drop path closes
/// exactly when `closes_on_drop` holds of the wrapper's raw value.
pub proof fn lemma_ctl_end_drop_after_release_is_silent<E: End>(e: &CtlEnd<E>)
    requires
        is_sentinel(e.raw()),
    ensures
        !closes_on_drop(e.raw()),
{
}

/// Dropping a control end that wraps one of the standard streams (0, 1 or 2)
/// never issues a close syscall: the inherited streams outlive every
/// wrapper.
pub proof fn lemma_ctl_end_drop_spares_std_streams<E: End>(e: &CtlEnd<E>)
    requires
        is_std_stream(e.raw()),
    ensures
        !closes_on_drop(e.raw()),
{
}

/// A bidirectional control channel between a parent and a spawned role: one
/// full-duplex local socket pair, exposed as a connected pair of
/// directionally typed ends.
pub struct Control {
    read: CtlEnd<Read>,
    write: CtlEnd<Write>,
}

impl Control {
    /// The raw value of the read end.
    pub closed spec fn read_raw(&self) -> int {
        self.read.raw()
    }

    /// The raw value of the write end.
    pub closed spec fn write_raw(&self) -> int {
        self.write.raw()
    }

    /// Create one full-duplex socket pair. On success the two ends are live
    /// descriptors of the same kernel object, and their raw values differ.
    /// This is expected to happen before forking, so that each side of the
    /// fork can keep exactly one end.
    pub fn new() -> (r: Result<Control, SysError>)
        ensures
            r matches Ok(c) ==> c.read_raw() >= 0 && c.write_raw() >= 0 && c.read_raw()
                != c.write_raw(),
    {
        let (read_fd, write_fd) = sys::sys_socketpair()?;
        Ok(Control { read: CtlEnd::from_raw(read_fd), write: CtlEnd::from_raw(write_fd) })
    }

    /// Split into the two independently owned ends, typically distributed to
    /// different processes after a fork, or to different tasks.
    pub fn split(self) -> (r: (CtlEnd<Read>, CtlEnd<Write>))
        ensures
            r.0.raw() == self.read_raw(),
            r.1.raw() == self.write_raw(),
    {
        let Control { read, write } = self;
        (read, write)
    }

    /// Keep only the write end; the read end is dropped here, which closes it.
    pub fn take_writer(self) -> (w: CtlEnd<Write>)
        ensures
            w.raw() == self.write_raw(),
    {
        let Control { read, write } = self;
        write
    }

    /// Keep only the read end; the write end is dropped here, which closes it.
    pub fn take_reader(self) -> (r: CtlEnd<Read>)
        ensures
            r.raw() == self.read_raw(),
    {
        let Control { read, write } = self;
        read
    }
}

} // verus!
