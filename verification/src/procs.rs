use vstd::prelude::*;
use crate::fork::{StdIoConf, StdioMode};
use crate::pipe::End;

verus! {

/// The contract every supervised role implements: a stable name, used both
/// as the re-exec subcommand and for diagnostics, and the standard-stream
/// configuration the launcher applies to the child. The asynchronous entry
/// point that receives the role's inbound control end runs under the
/// cooperative scheduler, outside this library.
pub trait Process<E: End> {
    /// The role's stable name: the subcommand it is re-executed under.
    fn name() -> (s: &'static str);

    /// How the launcher wires the role's standard streams.
    fn get_stdio() -> (c: StdIoConf);
}

/// The log-aggregating role: receives data-pipe read ends as message
/// attachments, tails each for newline-delimited text, and multiplexes the
/// lines to its own standard output. It is the sink of last resort, so its
/// own output is never redirected elsewhere.
#[derive(Debug)]
pub struct Logger;

/// The message-relaying role between the leader and its supervisors. Its own
/// streams are all captured, so its traffic is itself logged.
#[derive(Debug)]
pub struct Ipc;

impl Process<crate::pipe::Read> for Logger {
    fn name() -> (s: &'static str)
        ensures
            s@ == "logger"@,
    {
        "logger"
    }

    fn get_stdio() -> (c: StdIoConf)
        ensures
            c == (StdIoConf {
                stdin: StdioMode::Null,
                stdout: StdioMode::Inherit,
                stderr: StdioMode::Inherit,
            }),
    {
        StdIoConf { stdin: StdioMode::Null, stdout: StdioMode::Inherit, stderr: StdioMode::Inherit }
    }
}

impl Process<crate::pipe::Read> for Ipc {
    fn name() -> (s: &'static str)
        ensures
            s@ == "ipc"@,
    {
        "ipc"
    }

    fn get_stdio() -> (c: StdIoConf)
        ensures
            c == (StdIoConf {
                stdin: StdioMode::Piped,
                stdout: StdioMode::Piped,
                stderr: StdioMode::Piped,
            }),
    {
        StdIoConf { stdin: StdioMode::Piped, stdout: StdioMode::Piped, stderr: StdioMode::Piped }
    }
}

/// Who a control-plane message comes from or goes to, as declared by the
/// process tree's wiring.
#[derive(Debug, Clone, Copy, PartialEq, Eq, Structural)]
pub enum PeerKind {
    Leader,
    Supervisor,
    Launcher,
    Logger,
    Ipc,
}

/// The relay's inbound policy: a message is accepted if and only if its
/// declared origin is the leader; anything else is rejected, never silently
/// forwarded.
pub fn ipc_accepts_from(src: PeerKind) -> (r: bool)
    ensures
        r <==> src is Leader,
{
    matches!(src, PeerKind::Leader)
}

/// The relay's outbound policy: messages are delivered only to supervisors
/// and the launcher. The one exception towards the leader is pass-through
/// identifying data (process identifiers) explicitly tagged as
/// leader-directed; the relay never originates anything else to the leader.
pub fn ipc_may_deliver_to(dst: PeerKind, leader_directed: bool) -> (r: bool)
    ensures
        r <==> (dst is Supervisor || dst is Launcher || (dst is Leader && leader_directed)),
{
    match dst {
        PeerKind::Supervisor => true,
        PeerKind::Launcher => true,
        PeerKind::Leader => leader_directed,
        _ => false,
    }
}

/// The prefix the logger puts before every line it forwards: the bytes of
/// `"LOG "`.
pub open spec fn log_prefix() -> Seq<u8> {
    seq![76u8, 79u8, 71u8, 32u8]
}

/// The decimal digits of a number, most significant first.
pub open spec fn decimal_digits(n: nat) -> Seq<u8>
    decreases n,
{
    if n < 10 {
        seq![(48 + n) as u8]
    } else {
        decimal_digits(n / 10).push((48 + n % 10) as u8)
    }
}

/// Render a number in decimal, digit bytes most significant first.
pub fn render_decimal(n: u32) -> (r: Vec<u8>)
    ensures
        r@ == decimal_digits(n as nat),
    decreases n,
{
    if n < 10 {
        let mut r: Vec<u8> = Vec::new();
        r.push((48 + n) as u8);
        r
    } else {
        let mut r = render_decimal(n / 10);
        r.push((48 + n % 10) as u8);
        r
    }
}

/// The stable identifier of one log source, carried inside every message
/// that attaches a loggable descriptor and put on each forwarded line: the
/// source's role name, then its process id in brackets, `name[pid]`.
pub fn source_tag(role: &Vec<u8>, pid: u32) -> (r: Vec<u8>)
    ensures
        r@ == role@ + seq![91u8] + decimal_digits(pid as nat) + seq![93u8],
{
    let mut r: Vec<u8> = Vec::new();
    r.extend_from_slice(role.as_slice());
    r.push(91);
    let mut digits = render_decimal(pid);
    r.append(&mut digits);
    r.push(93);
    proof {
        assert(r@ =~= role@ + seq![91u8] + decimal_digits(pid as nat) + seq![93u8]);
    }
    r
}

/// Take the first complete newline-delimited line out of the buffer the
/// tailing task has accumulated: the returned line holds no line break, the
/// buffer keeps everything after the break. Without a complete line the
/// buffer stays untouched.
#[verifier::loop_isolation(false)]
pub fn take_line(buf: &mut Vec<u8>) -> (r: Option<Vec<u8>>)
    ensures
        r matches Some(line) ==> old(buf)@ == line@ + seq![10u8] + final(buf)@ && (forall|k: int|
            0 <= k < line@.len() ==> line@[k] != 10u8),
        r is None ==> final(buf)@ == old(buf)@ && (forall|k: int|
            0 <= k < old(buf)@.len() ==> old(buf)@[k] != 10u8),
{
    let n = buf.len();
    let mut i: usize = 0;
    while i < n && buf[i] != 10
        invariant
            i <= n,
            forall|k: int| 0 <= k < i ==> buf@[k] != 10u8,
        decreases n - i,
    {
        i = i + 1;
    }
    if i == n {
        return None;
    }
    let mut rest = buf.split_off(i + 1);
    let _newline = buf.pop();
    core::mem::swap(buf, &mut rest);
    proof {
        assert(old(buf)@ =~= rest@ + seq![10u8] + buf@);
    }
    Some(rest)
}

/// Decorate one line read from a tailed descriptor for the logger's own
/// standard output: the prefix, the source's stable identifier, a colon and
/// a space, then the line's bytes, unchanged and in order — so every
/// forwarded line names the process it came from.
pub fn prefix_log_line(source: &Vec<u8>, line: &Vec<u8>) -> (r: Vec<u8>)
    ensures
        r@ == log_prefix() + source@ + seq![58u8, 32u8] + line@,
{
    let mut r: Vec<u8> = Vec::new();
    r.push(76);
    r.push(79);
    r.push(71);
    r.push(32);
    r.extend_from_slice(source.as_slice());
    r.push(58);
    r.push(32);
    r.extend_from_slice(line.as_slice());
    proof {
        assert(r@ =~= log_prefix() + source@ + seq![58u8, 32u8] + line@);
    }
    r
}

} // verus!
