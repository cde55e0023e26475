use vstd::prelude::*;

verus! {

/// A failed system call, carrying the raw `errno` value the OS reported.
/// A negative value marks a condition the library itself detected: a send
/// or write that made no progress at all.
#[derive(Debug, Clone, Copy, PartialEq, Eq, Structural)]
pub struct SysError {
    pub errno: i32,
}

/// Why receiving a framed message failed.
#[derive(Debug, Clone, Copy, PartialEq, Eq, Structural)]
pub enum RecvError {
    /// The underlying read syscall failed.
    Transport(SysError),
    /// The peer closed the channel before any byte of a new frame arrived:
    /// a clean end of stream, not a malformed frame.
    Closed,
    /// The peer closed the channel in the middle of a frame (a partial
    /// header, or fewer payload bytes than the header declared).
    Truncated,
    /// The header's attachment flag held a value other than 0 or 1.
    BadFlag,
    /// The header announced an attached descriptor but none arrived.
    MissingAttachment,
    /// A descriptor arrived although the header announced none.
    UnexpectedAttachment,
}

} // verus!
