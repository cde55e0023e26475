use vstd::prelude::*;
use vstd::slice::slice_subrange;
use crate::control::CtlEnd;
use crate::error::{RecvError, SysError};
use crate::pipe::{PipeEnd, Read, Write};
use crate::sys;

verus! {

/// Number of bytes in a frame header: a 32-bit little-endian payload length
/// followed by one attachment-flag byte.
pub const HEADER_LEN: usize = 5;

/// Largest payload length a header can declare.
pub const MAX_PAYLOAD: usize = 0xffff_ffff;

/// The four little-endian bytes of a 32-bit length.
pub open spec fn le32_bytes(n: u32) -> Seq<u8> {
    seq![
        (n % 256) as u8,
        ((n / 256) % 256) as u8,
        ((n / 65536) % 256) as u8,
        ((n / 16777216) % 256) as u8,
    ]
}

/// The value a 4-byte little-endian sequence denotes.
pub open spec fn le32_value(b: Seq<u8>) -> int
    recommends
        b.len() == 4,
{
    b[0] + 256 * b[1] + 65536 * b[2] + 16777216 * b[3]
}

/// The flag byte announcing whether a descriptor rides along with the frame.
pub open spec fn flag_byte(flag: bool) -> u8 {
    if flag {
        1u8
    } else {
        0u8
    }
}

/// The header of a frame with the given payload length and attachment flag.
pub open spec fn header_bytes(len: u32, flag: bool) -> Seq<u8> {
    le32_bytes(len).push(flag_byte(flag))
}

/// The complete wire form of a frame: header, then the payload bytes.
pub open spec fn frame_bytes(payload: Seq<u8>, flag: bool) -> Seq<u8>
    recommends
        payload.len() <= MAX_PAYLOAD,
{
    header_bytes(payload.len() as u32, flag) + payload
}

/// Encoding a 32-bit length and reading the four bytes back gives the same
/// value.
pub proof fn lemma_le32_round_trip(n: u32)
    ensures
        le32_value(le32_bytes(n)) == n,
{
    assert(n % 256 + 256 * ((n / 256) % 256) + 65536 * ((n / 65536) % 256) + 16777216 * ((n
        / 16777216) % 256) == n) by (bit_vector);
}

/// A frame is parsed back into exactly what was framed: the declared length
/// is the payload's length, the flag byte is the flag, and the bytes after
/// the header are the payload, unchanged and in order.
pub proof fn lemma_frame_round_trip(payload: Seq<u8>, flag: bool)
    requires
        payload.len() <= MAX_PAYLOAD,
    ensures
        frame_bytes(payload, flag).len() == HEADER_LEN + payload.len(),
        le32_value(frame_bytes(payload, flag).take(4)) == payload.len(),
        frame_bytes(payload, flag)[4] == flag_byte(flag),
        frame_bytes(payload, flag).skip(HEADER_LEN as int) == payload,
{
    let f = frame_bytes(payload, flag);
    lemma_le32_round_trip(payload.len() as u32);
    assert(f.take(4) =~= le32_bytes(payload.len() as u32));
    assert(f.skip(HEADER_LEN as int) =~= payload);
}

/// Serialize a header and payload into one frame, ready to send.
pub fn encode_frame(payload: &Vec<u8>, has_attachment: bool) -> (r: Vec<u8>)
    requires
        payload@.len() <= MAX_PAYLOAD,
    ensures
        r@ == frame_bytes(payload@, has_attachment),
{
    let len: u32 = payload.len() as u32;
    let mut r: Vec<u8> = Vec::new();
    r.push((len % 256) as u8);
    r.push(((len / 256) % 256) as u8);
    r.push(((len / 65536) % 256) as u8);
    r.push(((len / 16777216) % 256) as u8);
    r.push(if has_attachment { 1 } else { 0 });
    r.extend_from_slice(payload.as_slice());
    proof {
        assert(r@ =~= frame_bytes(payload@, has_attachment));
    }
    r
}

/// Parse a header: the declared payload length and the attachment flag.
/// Rejects a buffer of the wrong size and a flag byte other than 0 or 1.
pub fn parse_header(h: &Vec<u8>) -> (r: Result<(u32, bool), RecvError>)
    ensures
        h@.len() == HEADER_LEN && h@[4] <= 1 ==> (r matches Ok(p) && p.0 == le32_value(h@.take(4))
            && p.1 == (h@[4] == 1)),
        h@.len() != HEADER_LEN ==> r == Err::<(u32, bool), RecvError>(RecvError::Truncated),
        h@.len() == HEADER_LEN && h@[4] > 1 ==> r == Err::<(u32, bool), RecvError>(
            RecvError::BadFlag,
        ),
{
    if h.len() != HEADER_LEN {
        return Err(RecvError::Truncated);
    }
    let flag_b = h[4];
    if flag_b > 1 {
        return Err(RecvError::BadFlag);
    }
    let len: u32 = h[0] as u32 + (h[1] as u32) * 256 + (h[2] as u32) * 65536 + (h[3] as u32)
        * 16777216;
    Ok((len, flag_b == 1))
}

/// A framed unit sent over a control channel: a byte payload and at most one
/// attached descriptor, whose ownership moves to the receiver.
#[derive(Debug)]
pub struct Message {
    payload: Vec<u8>,
    attachment: Option<PipeEnd<Read>>,
}

impl Message {
    /// The payload bytes.
    pub closed spec fn payload_view(&self) -> Seq<u8> {
        self.payload@
    }

    /// Whether a descriptor is attached (its wrapper may already be
    /// forgotten on the sender's side after a successful send).
    pub closed spec fn attachment_present(&self) -> bool {
        self.attachment is Some
    }

    /// The raw value the attached descriptor's wrapper holds.
    pub closed spec fn attachment_raw(&self) -> int
        recommends
            self.attachment_present(),
    {
        self.attachment->Some_0.raw()
    }

    /// A message with a payload and nothing attached.
    pub fn new(payload: Vec<u8>) -> (m: Message)
        ensures
            m.payload_view() == payload@,
            !m.attachment_present(),
    {
        Message { payload, attachment: None }
    }

    /// A message carrying one descriptor to hand over to the receiver.
    pub fn with_attachment(payload: Vec<u8>, fd: PipeEnd<Read>) -> (m: Message)
        ensures
            m.payload_view() == payload@,
            m.attachment_present(),
            m.attachment_raw() == fd.raw(),
    {
        Message { payload, attachment: Some(fd) }
    }

    /// The payload bytes, for reading.
    pub fn payload(&self) -> (r: &Vec<u8>)
        ensures
            r@ == self.payload_view(),
    {
        &self.payload
    }

    /// Whether a descriptor is attached.
    pub fn has_attachment(&self) -> (r: bool)
        ensures
            r == self.attachment_present(),
    {
        self.attachment.is_some()
    }

    /// Extract the attached descriptor, if any. The attachment is consumed:
    /// a second call returns `None`.
    pub fn take_pipe(&mut self) -> (r: Option<PipeEnd<Read>>)
        ensures
            final(self).payload_view() == old(self).payload_view(),
            !final(self).attachment_present(),
            old(self).attachment_present() ==> (r matches Some(p) && p.raw() == old(
                self,
            ).attachment_raw()),
            !old(self).attachment_present() ==> r is None,
    {
        self.attachment.take()
    }
}

/// Send one message over the write end of a control channel: the frame goes
/// out in order, and the attached descriptor, if any, rides with the first
/// chunk. Once that chunk is accepted the kernel owns the transferred
/// descriptor, so the sender's wrapper is forgotten — never closed — from
/// that point on, in particular whenever the send as a whole succeeds.
#[verifier::loop_isolation(false)]
pub fn send_msg(end: &CtlEnd<Write>, msg: &mut Message) -> (r: Result<(), SysError>)
    requires
        old(msg).payload_view().len() <= MAX_PAYLOAD,
    ensures
        final(msg).payload_view() == old(msg).payload_view(),
        final(msg).attachment_present() == old(msg).attachment_present(),
        r is Ok && old(msg).attachment_present() ==> final(msg).attachment_raw() == -1,
{
    let frame = encode_frame(&msg.payload, msg.attachment.is_some());
    let attach_fd: Option<i32> = match &msg.attachment {
        Some(p) => Some(p.raw_fd()),
        None => None,
    };
    let fd = end.raw_fd();
    let frame_len = frame.len();

    let mut sent: usize;
    match sys::sys_sendmsg(fd, frame.as_slice(), attach_fd) {
        Ok(n) => {
            // the kernel accepted the call, and with it the attachment
            match &mut msg.attachment {
                Some(a) => a.forget(),
                None => {},
            }
            sent = n;
        },
        Err(e) => {
            return Err(e);
        },
    }
    if sent == 0 && frame_len > 0 {
        return Err(SysError { errno: -1 });
    }
    while sent < frame_len
        invariant
            sent <= frame_len,
            frame_len == frame@.len(),
        decreases frame_len - sent,
    {
        let chunk = slice_subrange(frame.as_slice(), sent, frame_len);
        match sys::sys_sendmsg(fd, chunk, None) {
            Ok(n) => {
                if n == 0 {
                    return Err(SysError { errno: -1 });
                }
                sent = sent + n;
            },
            Err(e) => {
                return Err(e);
            },
        }
    }
    Ok(())
}

/// Read exactly `want` bytes from the read end, collecting at most one
/// descriptor delivered alongside them. A stream that ends before the first
/// byte reports `Closed`; one that ends in the middle reports `Truncated`.
#[verifier::loop_isolation(false)]
fn read_exact(end: &CtlEnd<Read>, want: usize) -> (r: Result<(Vec<u8>, Option<i32>), RecvError>)
    requires
        want >= 1,
    ensures
        r matches Ok(p) ==> p.0@.len() == want,
        r matches Ok(p) ==> (p.1 matches Some(a) ==> a >= 0),
{
    let fd = end.raw_fd();
    let mut acc: Vec<u8> = Vec::new();
    let mut got: Option<i32> = None;
    while acc.len() < want
        invariant
            acc@.len() <= want,
            got matches Some(a) ==> a >= 0,
        decreases want - acc@.len(),
    {
        let need = want - acc.len();
        match sys::sys_recvmsg(fd, need) {
            Ok((mut chunk, cfd)) => {
                if chunk.len() == 0 {
                    return Err(
                        if acc.len() == 0 {
                            RecvError::Closed
                        } else {
                            RecvError::Truncated
                        },
                    );
                }
                acc.append(&mut chunk);
                match cfd {
                    Some(a) => {
                        got = Some(a);
                    },
                    None => {},
                }
            },
            Err(e) => {
                return Err(RecvError::Transport(e));
            },
        }
    }
    Ok((acc, got))
}

/// Turn what came off the wire into a message. The header's flag and the
/// descriptor's arrival must agree: a flagged frame without a descriptor and
/// a descriptor without a flag are both protocol errors; in the latter case
/// the stray descriptor is wrapped and dropped so it cannot leak.
pub fn assemble_message(payload: Vec<u8>, flag: bool, fd: Option<i32>) -> (r: Result<
    Message,
    RecvError,
>)
    ensures
        flag && fd is Some ==> (r matches Ok(m) && m.payload_view() == payload@
            && m.attachment_present() && m.attachment_raw() == fd->Some_0 as int),
        flag && fd is None ==> r == Err::<Message, RecvError>(RecvError::MissingAttachment),
        !flag && fd is Some ==> r == Err::<Message, RecvError>(RecvError::UnexpectedAttachment),
        !flag && fd is None ==> (r matches Ok(m) && m.payload_view() == payload@
            && !m.attachment_present()),
{
    match fd {
        Some(a) => {
            if flag {
                Ok(Message { payload, attachment: Some(PipeEnd::from_raw(a)) })
            } else {
                let _stray = PipeEnd::<Read>::from_raw(a);
                Err(RecvError::UnexpectedAttachment)
            }
        },
        None => {
            if flag {
                Err(RecvError::MissingAttachment)
            } else {
                Ok(Message { payload, attachment: None })
            }
        },
    }
}

/// Receive one message from the read end of a control channel: read and
/// parse a full header, read the declared payload, and assemble the attached
/// descriptor, if any, into a fresh owned wrapper for the receiver. Whatever
/// the peer sent, a returned message has a payload no longer than a header
/// can declare, and any attachment it carries is a live descriptor.
pub fn recv_msg(end: &CtlEnd<Read>) -> (r: Result<Message, RecvError>)
    ensures
        r matches Ok(m) ==> m.payload_view().len() <= MAX_PAYLOAD,
        r matches Ok(m) ==> (m.attachment_present() ==> m.attachment_raw() >= 0),
{
    let (header, hfd) = match read_exact(end, HEADER_LEN) {
        Ok(p) => p,
        Err(e) => {
            return Err(e);
        },
    };
    let (len, flag) = match parse_header(&header) {
        Ok(p) => p,
        Err(e) => {
            return Err(e);
        },
    };
    let payload: Vec<u8>;
    let mut pfd: Option<i32> = None;
    if len == 0 {
        payload = Vec::new();
    } else {
        match read_exact(end, len as usize) {
            Ok((p, f)) => {
                payload = p;
                pfd = f;
            },
            // the stream ended inside the declared payload: a torn frame
            Err(RecvError::Closed) => {
                return Err(RecvError::Truncated);
            },
            Err(e) => {
                return Err(e);
            },
        }
    }
    let fd_in: Option<i32> = match (hfd, pfd) {
        (Some(a), _) => Some(a),
        (None, other) => other,
    };
    assemble_message(payload, flag, fd_in)
}

} // verus!
