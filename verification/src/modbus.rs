//! The Modbus-compatible wire protocol: parsing the 8-byte frame header and
//! the per-function-code request bodies, and re-encoding bridge responses
//! into reply frames.

use vstd::prelude::*;

use crate::bridge::{req_wf, Request, Response};

verus! {

/// What a Modbus reply must echo: the transaction id and function code of
/// the request it answers.
#[derive(Clone, Copy, PartialEq, Eq, Structural, Debug)]
pub struct ModbusExtra {
    pub tid: u16,
    pub fc: u8,
}

/// The two bytes `hi`, `lo` read as one big-endian 16-bit value.
pub open spec fn be16(hi: u8, lo: u8) -> int {
    hi * 256 + lo
}

/// High byte of the low 16 bits of `x`.
pub open spec fn u16_hi(x: int) -> u8 {
    ((x % 65536) / 256) as u8
}

/// Low byte of `x`.
pub open spec fn u16_lo(x: int) -> u8 {
    (x % 256) as u8
}

/// The accepted fields of one 8-byte frame header.
#[derive(Clone, Copy, PartialEq, Eq, Structural, Debug)]
pub struct ModbusHeader {
    pub tid: u16,
    pub unit: u8,
    pub fc: u8,
    /// How many bytes follow the header: the declared frame length less the
    /// unit id and function code already read with it.
    pub body_len: usize,
}

/// A parseable header: protocol id zero, and a declared length that covers
/// unit id and function code and fits one frame.
pub open spec fn header_ok(h: Seq<u8>) -> bool {
    &&& h[2] == 0 && h[3] == 0
    &&& 2 <= be16(h[4], h[5]) <= 252
}

/// Reads the fixed 8-byte frame header {transaction id, protocol id, length,
/// unit id, function code}. `None` means the header is unparseable (nonzero
/// protocol id, or a length no frame can have) and the connection closes.
pub fn parse_modbus_header(head: &Vec<u8>) -> (r: Option<ModbusHeader>)
    requires
        head@.len() == 8,
    ensures
        r is Some <==> header_ok(head@),
        r matches Some(h) ==> h == (ModbusHeader {
            tid: be16(head@[0], head@[1]) as u16,
            unit: head@[6],
            fc: head@[7],
            body_len: (be16(head@[4], head@[5]) - 2) as usize,
        }),
{
    if head[2] != 0 || head[3] != 0 {
        return None;
    }
    let dl: usize = (head[4] as usize) * 256 + (head[5] as usize);
    if dl < 2 || dl > 252 {
        return None;
    }
    let tid: u16 = (head[0] as u16) * 256 + (head[1] as u16);
    Some(ModbusHeader { tid, unit: head[6], fc: head[7], body_len: dl - 2 })
}

/// What the read loop does with one parsed frame.
pub enum ModbusAction {
    /// Frame dropped; the loop reads on.
    Skip,
    /// An immediate synchronous reply, bypassing the bridge.
    Reply(Vec<u8>),
    /// A request for the bridge.
    Submit(Request<ModbusExtra>),
}

/// The error reply frame: high bit set on the function code, one error-code
/// byte appended, length field = total bytes - 6.
pub open spec fn modbus_error_frame(tid: u16, fc: u8, code: u8) -> Seq<u8> {
    seq![
        u16_hi(tid as int),
        u16_lo(tid as int),
        0u8,
        0u8,
        0u8,
        3u8,
        0u8,
        (if fc >= 128 {
            fc
        } else {
            (fc + 128) as u8
        }),
        code,
    ]
}

/// The reply to a register read: byte count, then the bytes.
pub open spec fn modbus_read_reply(tid: u16, fc: u8, values: Seq<u8>) -> Seq<u8>
    recommends
        values.len() <= 247,
{
    seq![
        u16_hi(tid as int),
        u16_lo(tid as int),
        0u8,
        0u8,
        0u8,
        (values.len() + 3) as u8,
        0u8,
        fc,
        values.len() as u8,
    ] + values
}

/// The reply to a single-register write: address echoed, then the two bytes.
pub open spec fn modbus_write_single_reply(tid: u16, addr: int, values: Seq<u8>) -> Seq<u8>
    recommends
        values.len() == 2,
{
    seq![
        u16_hi(tid as int),
        u16_lo(tid as int),
        0u8,
        0u8,
        0u8,
        6u8,
        0u8,
        6u8,
        u16_hi(addr),
        u16_lo(addr),
        values[0],
        values[1],
    ]
}

/// The reply to a multiple-register write: address echoed, then the register
/// count written.
pub open spec fn modbus_write_multiple_reply(tid: u16, addr: int, nbytes: int) -> Seq<u8> {
    seq![
        u16_hi(tid as int),
        u16_lo(tid as int),
        0u8,
        0u8,
        0u8,
        6u8,
        0u8,
        16u8,
        u16_hi(addr),
        u16_lo(addr),
        u16_hi(nbytes / 2),
        u16_lo(nbytes / 2),
    ]
}

/// Splits a 16-bit value into its big-endian bytes.
fn be16_split(x: u16) -> (r: (u8, u8))
    ensures
        r.0 == u16_hi(x as int),
        r.1 == u16_lo(x as int),
{
    ((x / 256) as u8, (x % 256) as u8)
}

/// Big-endian bytes of the low 16 bits of a machine word.
fn be16_split_usize(x: usize) -> (r: (u8, u8))
    ensures
        r.0 == u16_hi(x as int),
        r.1 == u16_lo(x as int),
{
    (((x % 65536) / 256) as u8, (x % 256) as u8)
}

/// Turns one parsed frame into what the read loop does with it.
///
/// A nonzero unit id or a body that does not fit its function code drops the
/// frame; function codes 3 and 4 read registers and 6 and 16 write them
/// (addresses and counts are in 16-bit registers, twice as many bytes); a
/// write-multiple frame whose declared byte count disagrees with the frame
/// length is dropped before it reaches the bridge; an unknown function code
/// is answered at once with error code 1, bypassing the bridge.
#[verifier::loop_isolation(false)]
pub fn parse_modbus_request(hid: usize, h: ModbusHeader, body: &Vec<u8>) -> (r: ModbusAction)
    requires
        body@.len() == h.body_len,
    ensures
        h.unit != 0 ==> r is Skip,
        h.unit == 0 && (h.fc == 3 || h.fc == 4) ==> if body@.len() == 4 {
            ({
                &&& r matches ModbusAction::Submit(q)
                &&& q.hid == hid
                &&& q.addr == 2 * be16(body@[0], body@[1])
                &&& q.count == 2 * be16(body@[2], body@[3])
                &&& q.write is None
                &&& q.extra == (ModbusExtra { tid: h.tid, fc: h.fc })
            })
        } else {
            r is Skip
        },
        h.unit == 0 && h.fc == 6 ==> if body@.len() == 4 {
            ({
                &&& r matches ModbusAction::Submit(q)
                &&& q.hid == hid
                &&& q.addr == 2 * be16(body@[0], body@[1])
                &&& q.count == 2
                &&& q.write matches Some(b)
                &&& b@ == seq![body@[2], body@[3]]
                &&& q.extra == (ModbusExtra { tid: h.tid, fc: h.fc })
            })
        } else {
            r is Skip
        },
        h.unit == 0 && h.fc == 16 ==> if body@.len() >= 5 && body@.len() == 5 + body@[4] {
            ({
                &&& r matches ModbusAction::Submit(q)
                &&& q.hid == hid
                &&& q.addr == 2 * be16(body@[0], body@[1])
                &&& q.count == body@[4]
                &&& q.write matches Some(b)
                &&& b@ == body@.subrange(5, 5 + body@[4])
                &&& q.extra == (ModbusExtra { tid: h.tid, fc: h.fc })
            })
        } else {
            r is Skip
        },
        h.unit == 0 && h.fc != 3 && h.fc != 4 && h.fc != 6 && h.fc != 16 ==> ({
            &&& r matches ModbusAction::Reply(frame)
            &&& frame@ == modbus_error_frame(h.tid, h.fc, 1)
        }),
        r matches ModbusAction::Submit(q) ==> req_wf(q),
{
    if h.unit != 0 {
        return ModbusAction::Skip;
    }
    let extra = ModbusExtra { tid: h.tid, fc: h.fc };
    if h.fc == 3 || h.fc == 4 {
        if body.len() != 4 {
            return ModbusAction::Skip;
        }
        let addr: usize = 2 * ((body[0] as usize) * 256 + (body[1] as usize));
        let count: usize = 2 * ((body[2] as usize) * 256 + (body[3] as usize));
        ModbusAction::Submit(Request { hid, addr, count, write: None, extra })
    } else if h.fc == 6 {
        if body.len() != 4 {
            return ModbusAction::Skip;
        }
        let addr: usize = 2 * ((body[0] as usize) * 256 + (body[1] as usize));
        let mut bytes: Vec<u8> = Vec::new();
        bytes.push(body[2]);
        bytes.push(body[3]);
        proof {
            assert(bytes@ =~= seq![body@[2], body@[3]]);
        }
        ModbusAction::Submit(Request { hid, addr, count: 2, write: Some(bytes), extra })
    } else if h.fc == 16 {
        if body.len() < 5 {
            return ModbusAction::Skip;
        }
        let bytecount: usize = body[4] as usize;
        if body.len() != 5 + bytecount {
            return ModbusAction::Skip;
        }
        let addr: usize = 2 * ((body[0] as usize) * 256 + (body[1] as usize));
        let mut bytes: Vec<u8> = Vec::new();
        let mut i: usize = 0;
        while i < bytecount
            invariant
                0 <= i <= bytecount,
                bytes@.len() == i,
                forall|k: int| 0 <= k < i ==> #[trigger] bytes@[k] == body@[5 + k],
            decreases bytecount - i,
        {
            bytes.push(body[5 + i]);
            i = i + 1;
        }
        proof {
            assert(bytes@ =~= body@.subrange(5, 5 + body@[4]));
        }
        ModbusAction::Submit(Request { hid, addr, count: bytecount, write: Some(bytes), extra })
    } else {
        ModbusAction::Reply(encode_modbus_error(h.tid, h.fc, 1))
    }
}

/// Encodes the error reply frame.
pub fn encode_modbus_error(tid: u16, fc: u8, code: u8) -> (r: Vec<u8>)
    ensures
        r@ == modbus_error_frame(tid, fc, code),
{
    let (tid_hi, tid_lo) = be16_split(tid);
    let efc: u8 = if fc >= 128 {
        fc
    } else {
        fc + 128
    };
    let mut out: Vec<u8> = Vec::new();
    out.push(tid_hi);
    out.push(tid_lo);
    out.push(0);
    out.push(0);
    out.push(0);
    out.push(3);
    out.push(0);
    out.push(efc);
    out.push(code);
    proof {
        assert(out@ =~= modbus_error_frame(tid, fc, code));
    }
    out
}

/// Re-encodes one bridge response as the reply frame of its function code.
/// The length field is always the total frame length less 6.
#[verifier::loop_isolation(false)]
pub fn encode_modbus_response(resp: &Response<ModbusExtra>) -> (r: Vec<u8>)
    requires
        resp matches Response::Data(req, values) ==> {
            &&& (req.extra.fc == 3 || req.extra.fc == 4 || req.extra.fc == 6 || req.extra.fc == 16)
            &&& ((req.extra.fc == 3 || req.extra.fc == 4) ==> values@.len() <= 247)
            &&& (req.extra.fc == 6 ==> values@.len() == 2)
        },
    ensures
        resp matches Response::Data(req, values) ==> r@ == if req.extra.fc == 3 || req.extra.fc
            == 4 {
            modbus_read_reply(req.extra.tid, req.extra.fc, values@)
        } else if req.extra.fc == 6 {
            modbus_write_single_reply(req.extra.tid, req.addr as int, values@)
        } else {
            modbus_write_multiple_reply(req.extra.tid, req.addr as int, values@.len() as int)
        },
        resp matches Response::Error(req, code) ==> r@ == modbus_error_frame(
            req.extra.tid,
            req.extra.fc,
            *code,
        ),
{
    match resp {
        Response::Error(req, code) => encode_modbus_error(req.extra.tid, req.extra.fc, *code),
        Response::Data(req, values) => {
            let (tid_hi, tid_lo) = be16_split(req.extra.tid);
            let mut out: Vec<u8> = Vec::new();
            out.push(tid_hi);
            out.push(tid_lo);
            out.push(0);
            out.push(0);
            if req.extra.fc == 3 || req.extra.fc == 4 {
                let n = values.len();
                out.push(0);
                out.push((n + 3) as u8);
                out.push(0);
                out.push(req.extra.fc);
                out.push(n as u8);
                let mut i: usize = 0;
                while i < n
                    invariant
                        0 <= i <= n,
                        out@.len() == 9 + i,
                        out@ =~= modbus_read_reply(req.extra.tid, req.extra.fc, values@).take(
                            9 + i as int,
                        ),
                    decreases n - i,
                {
                    out.push(values[i]);
                    i = i + 1;
                }
                proof {
                    assert(out@ =~= modbus_read_reply(req.extra.tid, req.extra.fc, values@));
                }
            } else {
                let (a_hi, a_lo) = be16_split_usize(req.addr);
                out.push(0);
                out.push(6);
                out.push(0);
                out.push(req.extra.fc);
                out.push(a_hi);
                out.push(a_lo);
                if req.extra.fc == 6 {
                    out.push(values[0]);
                    out.push(values[1]);
                    proof {
                        assert(out@ =~= modbus_write_single_reply(
                            req.extra.tid,
                            req.addr as int,
                            values@,
                        ));
                    }
                } else {
                    let (c_hi, c_lo) = be16_split_usize(values.len() / 2);
                    out.push(c_hi);
                    out.push(c_lo);
                    proof {
                        assert(out@ =~= modbus_write_multiple_reply(
                            req.extra.tid,
                            req.addr as int,
                            values@.len() as int,
                        ));
                    }
                }
            }
            out
        },
    }
}

} // verus!
