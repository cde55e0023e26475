use vermilionrc::control::{Control, CtlEnd};
use vermilionrc::error::RecvError;
use vermilionrc::msg::{encode_frame, parse_header, recv_msg, send_msg, Message};
use vermilionrc::pipe::{Pipe, Read};

#[test]
fn encode_frame_exact_bytes() {
    let frame = encode_frame(&vec![97, 98, 99], true);
    assert_eq!(frame, vec![3, 0, 0, 0, 1, 97, 98, 99]);
    let frame = encode_frame(&Vec::new(), false);
    assert_eq!(frame, vec![0, 0, 0, 0, 0]);
}

#[test]
fn encode_frame_length_is_little_endian() {
    let payload: Vec<u8> = vec![0; 258];
    let frame = encode_frame(&payload, false);
    assert_eq!(&frame[..5], &[2, 1, 0, 0, 0]);
    assert_eq!(frame.len(), 5 + 258);
}

#[test]
fn parse_header_round_trips() {
    let frame = encode_frame(&vec![1, 2, 3, 4], true);
    let header: Vec<u8> = frame[..5].to_vec();
    let (len, flag) = parse_header(&header).expect("header should parse");
    assert_eq!(len, 4);
    assert!(flag);
}

#[test]
fn parse_header_rejects_wrong_size_and_flag() {
    assert_eq!(parse_header(&vec![1, 2, 3]), Err(RecvError::Truncated));
    assert_eq!(parse_header(&vec![0, 0, 0, 0, 7]), Err(RecvError::BadFlag));
}

#[test]
fn send_and_recv_without_attachment() {
    let control = Control::new().expect("failed to create control channel");
    let (reader, writer) = control.split();
    let mut msg = Message::new(b"greeting".to_vec());
    send_msg(&writer, &mut msg).expect("send should succeed");
    let mut got = recv_msg(&reader).expect("recv should succeed");
    assert_eq!(got.payload(), &b"greeting".to_vec());
    // no attachment went along, so none comes out
    assert!(!got.has_attachment());
    assert!(got.take_pipe().is_none());
}

#[test]
fn send_and_recv_empty_payload() {
    let control = Control::new().expect("failed to create control channel");
    let (reader, writer) = control.split();
    let mut msg = Message::new(Vec::new());
    send_msg(&writer, &mut msg).expect("send should succeed");
    let got = recv_msg(&reader).expect("recv should succeed");
    assert!(got.payload().is_empty());
    assert!(!got.has_attachment());
}

#[test]
fn attachment_reaches_the_other_end() {
    let control = Control::new().expect("failed to create control channel");
    let (ctl_reader, ctl_writer) = control.split();
    let pipe = Pipe::new().expect("failed to create pipe");
    let (pipe_reader, mut pipe_writer) = pipe.split();

    let mut msg = Message::with_attachment(b"greeting".to_vec(), pipe_reader);
    send_msg(&ctl_writer, &mut msg).expect("send should succeed");

    // the sender's wrapper is forgotten, not closed: closing it is a no-op
    let mut sender_copy = msg.take_pipe().expect("attachment wrapper should remain");
    assert_eq!(sender_copy.raw_fd(), -1);
    assert!(sender_copy.close().is_ok());

    let mut got = recv_msg(&ctl_reader).expect("recv should succeed");
    assert_eq!(got.payload(), &b"greeting".to_vec());
    assert!(got.has_attachment());
    let received = got.take_pipe().expect("attachment should be present");
    assert!(received.raw_fd() >= 0);

    // the received descriptor is the same kernel object as the original:
    // bytes written through the original write end come out of it
    pipe_writer.write_all(&b"hello".to_vec()).expect("write should succeed");
    pipe_writer.close().expect("close should succeed");
    let tail = received.read_to_end(1 << 16).expect("read should succeed");
    assert_eq!(tail, b"hello".to_vec());
}

#[test]
fn take_pipe_consumes_the_attachment() {
    let control = Control::new().expect("failed to create control channel");
    let (ctl_reader, ctl_writer) = control.split();
    let pipe = Pipe::new().expect("failed to create pipe");
    let (pipe_reader, _pipe_writer) = pipe.split();

    let mut msg = Message::with_attachment(Vec::new(), pipe_reader);
    send_msg(&ctl_writer, &mut msg).expect("send should succeed");
    let mut got = recv_msg(&ctl_reader).expect("recv should succeed");
    assert!(got.take_pipe().is_some());
    assert!(got.take_pipe().is_none());
}

#[test]
fn truncated_payload_is_an_error() {
    let control = Control::new().expect("failed to create control channel");
    let (reader, mut writer) = control.split();
    // a valid header declaring 10 payload bytes, but only 3 arrive
    let mut bytes = vec![10, 0, 0, 0, 0];
    bytes.extend_from_slice(b"abc");
    nix::unistd::write(writer.raw_fd(), &bytes).expect("raw write should succeed");
    writer.close().expect("close should succeed");
    assert!(matches!(recv_msg(&reader), Err(RecvError::Truncated)));
}

#[test]
fn truncated_header_is_an_error() {
    let control = Control::new().expect("failed to create control channel");
    let (reader, mut writer) = control.split();
    nix::unistd::write(writer.raw_fd(), &[5, 0]).expect("raw write should succeed");
    writer.close().expect("close should succeed");
    assert!(matches!(recv_msg(&reader), Err(RecvError::Truncated)));
}

#[test]
fn clean_close_is_end_of_stream() {
    let control = Control::new().expect("failed to create control channel");
    let (reader, mut writer) = control.split();
    writer.close().expect("close should succeed");
    assert!(matches!(recv_msg(&reader), Err(RecvError::Closed)));
}

#[test]
fn bad_flag_byte_is_an_error() {
    let control = Control::new().expect("failed to create control channel");
    let (reader, mut writer) = control.split();
    nix::unistd::write(writer.raw_fd(), &[0, 0, 0, 0, 9]).expect("raw write should succeed");
    writer.close().expect("close should succeed");
    assert!(matches!(recv_msg(&reader), Err(RecvError::BadFlag)));
}

#[test]
fn flagged_frame_without_descriptor_is_an_error() {
    let control = Control::new().expect("failed to create control channel");
    let (reader, mut writer) = control.split();
    // flag byte set, but no descriptor rides along with the raw write
    nix::unistd::write(writer.raw_fd(), &[0, 0, 0, 0, 1]).expect("raw write should succeed");
    writer.close().expect("close should succeed");
    assert!(matches!(recv_msg(&reader), Err(RecvError::MissingAttachment)));
}

#[test]
fn large_payload_round_trips_in_order() {
    let control = Control::new().expect("failed to create control channel");
    let (reader, writer) = control.split();
    let payload: Vec<u8> = (0..=255u8).cycle().take(70_000).collect();
    let mut msg = Message::new(payload.clone());
    send_msg(&writer, &mut msg).expect("send should succeed");
    let got = recv_msg(&reader).expect("recv should succeed");
    assert_eq!(got.payload(), &payload);
}

#[test]
fn failed_read_is_a_transport_error() {
    // no such descriptor: the read syscall itself fails
    let end = CtlEnd::<Read>::from_raw(1_000_000);
    assert!(matches!(recv_msg(&end), Err(RecvError::Transport(_))));
}

#[test]
fn unflagged_descriptor_is_an_error() {
    let control = Control::new().expect("failed to create control channel");
    let (reader, writer) = control.split();
    let pipe = Pipe::new().expect("failed to create pipe");
    let (pipe_reader, _pipe_writer) = pipe.split();
    // a header whose flag byte says "no attachment", with a descriptor
    // riding along anyway
    let header = [0u8, 0, 0, 0, 0];
    let iov = [std::io::IoSlice::new(&header)];
    let fds = [pipe_reader.raw_fd()];
    let cmsg = [nix::sys::socket::ControlMessage::ScmRights(&fds)];
    nix::sys::socket::sendmsg::<nix::sys::socket::UnixAddr>(
        writer.raw_fd(),
        &iov,
        &cmsg,
        nix::sys::socket::MsgFlags::empty(),
        None,
    )
    .expect("sendmsg should succeed");
    assert!(matches!(recv_msg(&reader), Err(RecvError::UnexpectedAttachment)));
}
