//! The simple binary wire protocol: fixed 12-byte little-endian frames
//! {magic, addr, count}, a body of exactly `count` raw bytes after a write
//! header, and replies that echo the header with the fitting magic.

use vstd::prelude::*;

use crate::bridge::{req_wf, Request, Response};

verus! {

/// Magic of a read frame and of the header echoed on a read reply.
pub const SIMPLE_READ: u32 = 0x7EAD;

/// Magic of a write frame and of the header echoed on a write reply.
pub const SIMPLE_WRITE: u32 = 0xF71E;

/// Magic of an error reply.
pub const SIMPLE_ERR: u32 = 0xE770;

/// Four bytes read as one little-endian 32-bit value.
pub open spec fn le32(b0: u8, b1: u8, b2: u8, b3: u8) -> int {
    b0 + 256 * b1 + 65536 * b2 + 16777216 * b3
}

/// The low 32 bits of `x` as little-endian bytes.
pub open spec fn le32_bytes(x: int) -> Seq<u8> {
    seq![
        (x % 256) as u8,
        ((x / 256) % 256) as u8,
        ((x / 65536) % 256) as u8,
        ((x / 16777216) % 256) as u8,
    ]
}

/// One parsed 12-byte frame header.
#[derive(Clone, Copy, PartialEq, Eq, Structural, Debug)]
pub enum SimpleFrame {
    /// A read of `count` bytes at `addr`; no body follows.
    Read { addr: usize, count: usize },
    /// A write of `count` bytes at `addr`; exactly `count` raw bytes follow.
    Write { addr: usize, count: usize },
    /// An unknown magic; the frame is dropped and the read loop continues.
    Invalid,
}

/// Reads one 12-byte little-endian frame header.
pub fn parse_simple_header(head: &Vec<u8>) -> (r: SimpleFrame)
    requires
        head@.len() == 12,
    ensures
        ({
            let magic = le32(head@[0], head@[1], head@[2], head@[3]);
            let addr = le32(head@[4], head@[5], head@[6], head@[7]);
            let count = le32(head@[8], head@[9], head@[10], head@[11]);
            if magic == SIMPLE_READ {
                r == (SimpleFrame::Read { addr: addr as usize, count: count as usize })
            } else if magic == SIMPLE_WRITE {
                r == (SimpleFrame::Write { addr: addr as usize, count: count as usize })
            } else {
                r is Invalid
            }
        }),
{
    let magic = read_le32(head, 0);
    let addr = read_le32(head, 4) as usize;
    let count = read_le32(head, 8) as usize;
    if magic == SIMPLE_READ {
        SimpleFrame::Read { addr, count }
    } else if magic == SIMPLE_WRITE {
        SimpleFrame::Write { addr, count }
    } else {
        SimpleFrame::Invalid
    }
}

/// Reads the little-endian 32-bit value at `off`.
fn read_le32(bytes: &Vec<u8>, off: usize) -> (r: u32)
    requires
        off + 4 <= bytes@.len(),
    ensures
        r == le32(bytes@[off as int], bytes@[off + 1], bytes@[off + 2], bytes@[off + 3]),
{
    proof {
        assert(off + 4 <= bytes.len());
    }
    (bytes[off] as u32) + 256 * (bytes[off + 1] as u32) + 65536 * (bytes[off + 2] as u32)
        + 16777216 * (bytes[off + 3] as u32)
}

/// The request a read frame submits to the bridge; its `extra` marks it as a
/// read so the reply carries the payload.
pub fn simple_read_request(hid: usize, addr: usize, count: usize) -> (q: Request<bool>)
    ensures
        q.hid == hid && q.addr == addr && q.count == count && q.write is None && q.extra == true,
        req_wf(q),
{
    Request { hid, addr, count, write: None, extra: true }
}

/// The request a write frame with its body submits to the bridge.
pub fn simple_write_request(hid: usize, addr: usize, body: Vec<u8>) -> (q: Request<bool>)
    ensures
        ({
            &&& q.hid == hid
            &&& q.addr == addr
            &&& q.count == body@.len()
            &&& q.write matches Some(b)
            &&& b == body
            &&& q.extra == false
        }),
        req_wf(q),
{
    let count = body.len();
    Request { hid, addr, count, write: Some(body), extra: false }
}

/// The reply header: the 12-byte frame echoed with the fitting magic.
pub open spec fn simple_reply_header(magic: u32, addr: int, count: int) -> Seq<u8> {
    le32_bytes(magic as int) + le32_bytes(addr) + le32_bytes(count)
}

/// Appends the little-endian bytes of the low 32 bits of `x`.
fn push_le32(out: &mut Vec<u8>, x: usize)
    ensures
        final(out)@ == old(out)@ + le32_bytes(x as int),
{
    out.push((x % 256) as u8);
    out.push(((x / 256) % 256) as u8);
    out.push(((x / 65536) % 256) as u8);
    out.push(((x / 16777216) % 256) as u8);
    proof {
        assert(out@ =~= old(out)@ + le32_bytes(x as int));
    }
}

fn push_le32_const(out: &mut Vec<u8>, x: u32)
    ensures
        final(out)@ == old(out)@ + le32_bytes(x as int),
{
    out.push((x % 256) as u8);
    out.push(((x / 256) % 256) as u8);
    out.push(((x / 65536) % 256) as u8);
    out.push(((x / 16777216) % 256) as u8);
    proof {
        assert(out@ =~= old(out)@ + le32_bytes(x as int));
    }
}

/// Re-encodes one bridge response: a read reply echoes the header with the
/// read magic and appends the payload; a write reply echoes the header with
/// the write magic and has no body; an error reply echoes the header with the
/// error magic.
#[verifier::loop_isolation(false)]
pub fn encode_simple_response(resp: &Response<bool>) -> (r: Vec<u8>)
    ensures
        resp matches Response::Data(req, values) ==> r@ == if req.extra {
            simple_reply_header(SIMPLE_READ, req.addr as int, req.count as int) + values@
        } else {
            simple_reply_header(SIMPLE_WRITE, req.addr as int, req.count as int)
        },
        resp matches Response::Error(req, code) ==> r@ == simple_reply_header(
            SIMPLE_ERR,
            req.addr as int,
            req.count as int,
        ),
{
    let mut out: Vec<u8> = Vec::new();
    match resp {
        Response::Data(req, values) => {
            if req.extra {
                push_le32_const(&mut out, SIMPLE_READ);
                push_le32(&mut out, req.addr);
                push_le32(&mut out, req.count);
                let n = values.len();
                let ghost header = simple_reply_header(SIMPLE_READ, req.addr as int, req.count as int);
                let mut i: usize = 0;
                while i < n
                    invariant
                        0 <= i <= n,
                        out@ =~= header + values@.take(i as int),
                    decreases n - i,
                {
                    out.push(values[i]);
                    i = i + 1;
                }
                proof {
                    assert(out@ =~= header + values@);
                }
            } else {
                push_le32_const(&mut out, SIMPLE_WRITE);
                push_le32(&mut out, req.addr);
                push_le32(&mut out, req.count);
            }
        },
        Response::Error(req, _code) => {
            push_le32_const(&mut out, SIMPLE_ERR);
            push_le32(&mut out, req.addr);
            push_le32(&mut out, req.count);
        },
    }
    out
}

} // verus!
