use vstd::prelude::*;
use core::marker::PhantomData;
use crate::error::SysError;
use crate::sys;

verus! {

/// Compile-time direction marker for one end of a channel or pipe.
pub trait End {
    spec fn is_read() -> bool;
}

/// Marker for a readable end.
#[derive(Debug)]
pub struct Read;

/// Marker for a writable end.
#[derive(Debug)]
pub struct Write;

impl End for Read {
    open spec fn is_read() -> bool {
        true
    }
}

impl End for Write {
    open spec fn is_read() -> bool {
        false
    }
}

/// The two direction markers are opposite: an end tagged `Read` can never
/// carry the tag of an end tagged `Write`.
pub proof fn lemma_directions_opposite()
    ensures
        <Read as End>::is_read(),
        !<Write as End>::is_read(),
{
}

/// The raw value a wrapper holds once its descriptor has been released or
/// handed elsewhere.
pub open spec fn is_sentinel(raw: int) -> bool {
    raw < 0
}

/// The raw values of the process's inherited standard streams, which no
/// wrapper may ever close implicitly.
pub open spec fn is_std_stream(raw: int) -> bool {
    0 <= raw <= 2
}

/// Whether dropping a wrapper around `raw` issues a close syscall: only for
/// a live descriptor that is not a standard stream.
pub open spec fn closes_on_drop(raw: int) -> bool {
    raw > 2
}

/// Dropping a wrapper that holds the sentinel (after an explicit `close` or
/// `forget`) never issues a close syscall.
pub proof fn lemma_sentinel_never_closed_on_drop(raw: int)
    requires
        is_sentinel(raw),
    ensures
        !closes_on_drop(raw),
{
}

/// Dropping a wrapper around a standard stream (0, 1 or 2) never issues a
/// close syscall.
pub proof fn lemma_std_stream_never_closed_on_drop(raw: int)
    requires
        is_std_stream(raw),
    ensures
        !closes_on_drop(raw),
{
}

/// One end of a data pipe: the owning wrapper around a single raw descriptor,
/// tagged with its direction. The descriptor is released exactly once — on
/// scope exit, or earlier by an explicit `close` — unless `forget` detaches
/// it first because its ownership moved elsewhere.
#[derive(Debug)]
pub struct PipeEnd<E: End> {
    raw_fd: i32,
    dir: PhantomData<E>,
}

impl<E: End> PipeEnd<E> {
    /// The raw descriptor value this wrapper currently holds.
    pub closed spec fn raw(&self) -> int {
        self.raw_fd as int
    }

    /// Wrap an already-obtained raw descriptor; no validation beyond the
    /// direction tag the caller chose.
    pub fn from_raw(raw_fd: i32) -> (r: Self)
        ensures
            r.raw() == raw_fd as int,
    {
        Self { raw_fd, dir: PhantomData }
    }

    /// Observe the raw value without transferring ownership.
    pub fn raw_fd(&self) -> (r: i32)
        ensures
            r as int == self.raw(),
    {
        self.raw_fd
    }

    /// Detach without closing: the wrapper holds the sentinel afterwards, so
    /// neither drop nor a later `close` touches the descriptor again. Used
    /// when ownership of the descriptor has moved elsewhere. Idempotent: on
    /// a wrapper already at the sentinel it changes nothing.
    pub fn forget(&mut self)
        ensures
            final(self).raw() == -1,
            old(self).raw() == -1 ==> *final(self) == *old(self),
    {
        self.raw_fd = -1;
    }

    /// Release the descriptor now. A wrapper already holding the sentinel
    /// reports success without any syscall; in every case the wrapper holds
    /// the sentinel afterwards, so a later drop issues no second close.
    pub fn close(&mut self) -> (r: Result<(), SysError>)
        ensures
            final(self).raw() == -1,
            is_sentinel(old(self).raw()) ==> r is Ok,
    {
        if self.raw_fd < 0 {
            self.raw_fd = -1;
            return Ok(());
        }
        let res = sys::sys_close(self.raw_fd);
        self.raw_fd = -1;
        res
    }

    /// The drop path: issues the close syscall exactly when `closes_on_drop`
    /// holds of the current raw value — never for the sentinel, never for a
    /// standard stream — and leaves the sentinel behind. A close failure is
    /// only logged: during teardown there is no caller to report to.
    fn release_on_drop(&mut self) -> (closed: bool)
        ensures
            final(self).raw() == -1,
            closed == closes_on_drop(old(self).raw()),
        opens_invariants none
        no_unwind
    {
        let mut closed = false;
        if self.raw_fd > 2 {
            sys::log_fd_event("closing fd", self.raw_fd);
            match sys::sys_close(self.raw_fd) {
                Ok(_) => {},
                Err(_) => {
                    sys::log_fd_event("error closing file handle", self.raw_fd);
                },
            }
            closed = true;
        }
        self.raw_fd = -1;
        closed
    }
}

impl PipeEnd<Write> {
    /// Write the whole buffer to the pipe, in order, retrying partial
    /// writes; a write call that makes no progress is reported as an error
    /// rather than looped on. An empty buffer needs no syscall and always
    /// succeeds.
    #[verifier::loop_isolation(false)]
    pub fn write_all(&self, buf: &Vec<u8>) -> (r: Result<(), SysError>)
        ensures
            buf@.len() == 0 ==> r is Ok,
    {
        let fd = self.raw_fd();
        let total = buf.len();
        let mut sent: usize = 0;
        while sent < total
            invariant
                sent <= total,
                total == buf@.len(),
            decreases total - sent,
        {
            let chunk = vstd::slice::slice_subrange(buf.as_slice(), sent, total);
            match sys::sys_write(fd, chunk) {
                Ok(n) => {
                    if n == 0 {
                        return Err(SysError { errno: -1 });
                    }
                    sent = sent + n;
                },
                Err(e) => {
                    return Err(e);
                },
            }
        }
        Ok(())
    }
}

impl PipeEnd<Read> {
    /// Read up to `want` bytes; an empty result means the write end has been
    /// closed and the stream is over.
    pub fn read_chunk(&self, want: usize) -> (r: Result<Vec<u8>, SysError>)
        ensures
            r matches Ok(v) ==> v@.len() <= want,
    {
        sys::sys_read(self.raw_fd(), want)
    }

    /// Read until end of stream, but never more than `max` bytes: everything
    /// the peer wrote before closing its end, in order.
    #[verifier::loop_isolation(false)]
    pub fn read_to_end(&self, max: usize) -> (r: Result<Vec<u8>, SysError>)
        ensures
            r matches Ok(v) ==> v@.len() <= max,
            max == 0 ==> (r matches Ok(v) && v@.len() == 0),
    {
        let fd = self.raw_fd();
        let mut acc: Vec<u8> = Vec::new();
        while acc.len() < max
            invariant
                acc@.len() <= max,
            decreases max - acc@.len(),
        {
            let need = max - acc.len();
            match sys::sys_read(fd, need) {
                Ok(mut chunk) => {
                    if chunk.len() == 0 {
                        return Ok(acc);
                    }
                    acc.append(&mut chunk);
                },
                Err(e) => {
                    return Err(e);
                },
            }
        }
        Ok(acc)
    }
}

impl<E: End> Drop for PipeEnd<E> {
    fn drop(&mut self)
        opens_invariants none
        no_unwind
    {
        let _ = self.release_on_drop();
    }
}

/// Dropping a pipe end that was explicitly closed or forgotten (it holds
/// the sentinel) issues no second close syscall: the drop path closes
/// exactly when `closes_on_drop` holds of the wrapper's raw value.
pub proof fn lemma_pipe_end_drop_after_release_is_silent<E: End>(e: &PipeEnd<E>)
    requires
        is_sentinel(e.raw()),
    ensures
        !closes_on_drop(e.raw()),
{
}

/// Dropping a pipe end that wraps one of the standard streams (0, 1 or 2)
/// never issues a close syscall: the inherited streams outlive every
/// wrapper.
pub proof fn lemma_pipe_end_drop_spares_std_streams<E: End>(e: &PipeEnd<E>)
    requires
        is_std_stream(e.raw()),
    ensures
        !closes_on_drop(e.raw()),
{
}

/// A unidirectional OS pipe, exposed as a connected pair of directionally
/// typed ends created by one syscall.
pub struct Pipe {
    read: PipeEnd<Read>,
    write: PipeEnd<Write>,
}

impl Pipe {
    /// The raw value of the read end.
    pub closed spec fn read_raw(&self) -> int {
        self.read.raw()
    }

    /// The raw value of the write end.
    pub closed spec fn write_raw(&self) -> int {
        self.write.raw()
    }

    /// Create one OS pipe. On success the two ends are live descriptors of
    /// the same kernel object, and their raw values differ.
    pub fn new() -> (r: Result<Pipe, SysError>)
        ensures
            r matches Ok(p) ==> p.read_raw() >= 0 && p.write_raw() >= 0 && p.read_raw()
                != p.write_raw(),
    {
        let (read_fd, write_fd) = sys::sys_pipe()?;
        Ok(Pipe { read: PipeEnd::from_raw(read_fd), write: PipeEnd::from_raw(write_fd) })
    }

    /// Split into the two independently owned ends, typically distributed to
    /// different processes or tasks.
    pub fn split(self) -> (r: (PipeEnd<Read>, PipeEnd<Write>))
        ensures
            r.0.raw() == self.read_raw(),
            r.1.raw() == self.write_raw(),
    {
        let Pipe { read, write } = self;
        (read, write)
    }
}

} // verus!
