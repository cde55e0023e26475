use vermilionrc::fork::{child_end_is_read, slot_fd, StdIoConf, StdSlot, StdioMode};
use vermilionrc::pipe::Read;
use vermilionrc::procs::{
    ipc_accepts_from, ipc_may_deliver_to, prefix_log_line, render_decimal, source_tag, take_line,
    Ipc, Logger, PeerKind, Process,
};

#[test]
fn logger_stdio_discards_stdin_and_inherits_output() {
    let conf = <Logger as Process<Read>>::get_stdio();
    assert_eq!(conf.stdin, StdioMode::Null);
    assert_eq!(conf.stdout, StdioMode::Inherit);
    assert_eq!(conf.stderr, StdioMode::Inherit);
    assert!(!conf.any_piped());
}

#[test]
fn ipc_stdio_captures_all_streams() {
    let conf = <Ipc as Process<Read>>::get_stdio();
    assert_eq!(conf.stdin, StdioMode::Piped);
    assert_eq!(conf.stdout, StdioMode::Piped);
    assert_eq!(conf.stderr, StdioMode::Piped);
    assert!(conf.any_piped());
}

#[test]
fn role_names_are_their_subcommands() {
    assert_eq!(<Logger as Process<Read>>::name(), "logger");
    assert_eq!(<Ipc as Process<Read>>::name(), "ipc");
}

#[test]
fn stdio_mode_lookup_matches_fields() {
    let conf = StdIoConf {
        stdin: StdioMode::Piped,
        stdout: StdioMode::Inherit,
        stderr: StdioMode::Null,
    };
    assert_eq!(conf.mode(StdSlot::Stdin), StdioMode::Piped);
    assert_eq!(conf.mode(StdSlot::Stdout), StdioMode::Inherit);
    assert_eq!(conf.mode(StdSlot::Stderr), StdioMode::Null);
}

#[test]
fn slots_map_to_standard_descriptors() {
    assert_eq!(slot_fd(StdSlot::Stdin), 0);
    assert_eq!(slot_fd(StdSlot::Stdout), 1);
    assert_eq!(slot_fd(StdSlot::Stderr), 2);
}

#[test]
fn captured_stdin_gives_the_child_the_read_end() {
    assert!(child_end_is_read(StdSlot::Stdin));
    assert!(!child_end_is_read(StdSlot::Stdout));
    assert!(!child_end_is_read(StdSlot::Stderr));
}

#[test]
fn relay_accepts_only_the_leader() {
    assert!(ipc_accepts_from(PeerKind::Leader));
    assert!(!ipc_accepts_from(PeerKind::Supervisor));
    assert!(!ipc_accepts_from(PeerKind::Launcher));
    assert!(!ipc_accepts_from(PeerKind::Logger));
    assert!(!ipc_accepts_from(PeerKind::Ipc));
}

#[test]
fn relay_delivers_only_downstream() {
    assert!(ipc_may_deliver_to(PeerKind::Supervisor, false));
    assert!(ipc_may_deliver_to(PeerKind::Launcher, false));
    assert!(!ipc_may_deliver_to(PeerKind::Logger, false));
    assert!(!ipc_may_deliver_to(PeerKind::Leader, false));
    // pass-through identifying data tagged for the leader is the exception
    assert!(ipc_may_deliver_to(PeerKind::Leader, true));
}

#[test]
fn log_lines_are_prefixed_with_their_source() {
    let source = b"worker[42]".to_vec();
    let line = b"worker said hi".to_vec();
    let shown = prefix_log_line(&source, &line);
    assert_eq!(shown, b"LOG worker[42]: worker said hi".to_vec());
    assert_eq!(prefix_log_line(&source, &Vec::new()), b"LOG worker[42]: ".to_vec());
}

#[test]
fn source_tags_carry_role_and_pid() {
    assert_eq!(source_tag(&b"logger".to_vec(), 0), b"logger[0]".to_vec());
    assert_eq!(source_tag(&b"ipc".to_vec(), 4029), b"ipc[4029]".to_vec());
}

#[test]
fn decimal_rendering_is_exact() {
    assert_eq!(render_decimal(0), b"0".to_vec());
    assert_eq!(render_decimal(7), b"7".to_vec());
    assert_eq!(render_decimal(105), b"105".to_vec());
    assert_eq!(render_decimal(4_294_967_295), b"4294967295".to_vec());
}

#[test]
fn take_line_splits_at_the_first_break() {
    let mut buf = b"one\ntwo\nrest".to_vec();
    assert_eq!(take_line(&mut buf), Some(b"one".to_vec()));
    assert_eq!(take_line(&mut buf), Some(b"two".to_vec()));
    assert_eq!(take_line(&mut buf), None);
    assert_eq!(buf, b"rest".to_vec());
}

#[test]
fn take_line_handles_empty_lines() {
    let mut buf = b"\nx".to_vec();
    assert_eq!(take_line(&mut buf), Some(Vec::new()));
    assert_eq!(buf, b"x".to_vec());
    let mut empty: Vec<u8> = Vec::new();
    assert_eq!(take_line(&mut empty), None);
}
