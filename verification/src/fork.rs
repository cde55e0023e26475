use vstd::prelude::*;
use crate::pipe::is_std_stream;

verus! {

/// The raw descriptor value of the standard input slot.
pub const STDIN: i32 = 0;

/// The raw descriptor value of the standard output slot.
pub const STDOUT: i32 = 1;

/// The raw descriptor value of the standard error slot.
pub const STDERR: i32 = 2;

/// How one of a child's standard streams is wired at launch.
#[derive(Debug, Clone, Copy, PartialEq, Eq, Structural)]
pub enum StdioMode {
    /// Share the parent's stream unchanged.
    Inherit,
    /// Bind the stream to the null device.
    Null,
    /// Create a data pipe: one end is dup'd onto the child's slot, the
    /// other stays with the parent as a resource (for example, handed to
    /// the logger inside a message).
    Piped,
}

/// A role's standard-stream configuration: one mode per slot. The launcher
/// applies it in the child before the role's entry point runs.
#[derive(Debug, Clone, Copy, PartialEq, Eq, Structural)]
pub struct StdIoConf {
    pub stdin: StdioMode,
    pub stdout: StdioMode,
    pub stderr: StdioMode,
}

/// One of the three standard-stream slots of a process.
#[derive(Debug, Clone, Copy, PartialEq, Eq, Structural)]
pub enum StdSlot {
    Stdin,
    Stdout,
    Stderr,
}

impl StdIoConf {
    /// The mode configured for a slot.
    pub open spec fn mode_spec(&self, slot: StdSlot) -> StdioMode {
        match slot {
            StdSlot::Stdin => self.stdin,
            StdSlot::Stdout => self.stdout,
            StdSlot::Stderr => self.stderr,
        }
    }

    /// Look up the mode configured for a slot.
    pub fn mode(&self, slot: StdSlot) -> (m: StdioMode)
        ensures
            m == self.mode_spec(slot),
    {
        match slot {
            StdSlot::Stdin => self.stdin,
            StdSlot::Stdout => self.stdout,
            StdSlot::Stderr => self.stderr,
        }
    }

    /// Whether launching under this configuration creates at least one pipe.
    pub fn any_piped(&self) -> (r: bool)
        ensures
            r == (self.stdin is Piped || self.stdout is Piped || self.stderr is Piped),
    {
        matches!(self.stdin, StdioMode::Piped) || matches!(self.stdout, StdioMode::Piped)
            || matches!(self.stderr, StdioMode::Piped)
    }
}

/// The raw descriptor value a slot occupies in every process: 0, 1 or 2 —
/// always a standard stream, so an owned wrapper around it is never closed
/// on drop.
pub fn slot_fd(slot: StdSlot) -> (r: i32)
    ensures
        slot is Stdin ==> r == STDIN,
        slot is Stdout ==> r == STDOUT,
        slot is Stderr ==> r == STDERR,
        is_std_stream(r as int),
{
    match slot {
        StdSlot::Stdin => 0,
        StdSlot::Stdout => 1,
        StdSlot::Stderr => 2,
    }
}

/// For a captured (piped) slot, which pipe end is dup'd onto the child's
/// slot: the read end for stdin — the child reads its input from it — and
/// the write end for stdout and stderr, which the child writes. The parent
/// keeps the opposite end, and must `forget` the wrapper of the end the
/// child's slot took over.
pub fn child_end_is_read(slot: StdSlot) -> (r: bool)
    ensures
        r == (slot is Stdin),
{
    matches!(slot, StdSlot::Stdin)
}

} // verus!
