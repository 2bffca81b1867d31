//! The two wire protocols: frame parsing and reply encoding, cross-checked
//! byte for byte (and against an independent byte-order implementation).

use byteorder::{ByteOrder, BE, LE};
use ethercat_plc::bridge::{Request, Response};
use ethercat_plc::modbus::{
    encode_modbus_error, encode_modbus_response, parse_modbus_header, parse_modbus_request,
    ModbusAction, ModbusExtra,
};
use ethercat_plc::simple::{
    encode_simple_response, parse_simple_header, simple_read_request, simple_write_request,
    SimpleFrame, SIMPLE_ERR, SIMPLE_READ, SIMPLE_WRITE,
};

fn mb_req(addr: usize, count: usize, write: Option<Vec<u8>>, tid: u16, fc: u8) -> Request<ModbusExtra> {
    Request { hid: 1, addr, count, write, extra: ModbusExtra { tid, fc } }
}

#[test]
fn modbus_header_accepts_a_plain_frame() {
    let head = vec![0x12, 0x34, 0, 0, 0, 6, 0, 3];
    let h = parse_modbus_header(&head).unwrap();
    assert_eq!(h.tid, 0x1234);
    assert_eq!(h.unit, 0);
    assert_eq!(h.fc, 3);
    assert_eq!(h.body_len, 4);
}

#[test]
fn modbus_header_rejects_protocol_id_and_bad_lengths() {
    assert!(parse_modbus_header(&vec![0, 1, 0, 5, 0, 6, 0, 3]).is_none());
    assert!(parse_modbus_header(&vec![0, 1, 0, 0, 0, 1, 0, 3]).is_none());
    assert!(parse_modbus_header(&vec![0, 1, 0, 0, 0xFF, 0xFF, 0, 3]).is_none());
}

#[test]
fn modbus_nonzero_unit_id_drops_the_frame() {
    let head = vec![0, 1, 0, 0, 0, 6, 9, 3];
    let h = parse_modbus_header(&head).unwrap();
    assert_eq!(h.unit, 9);
    let action = parse_modbus_request(1, h, &vec![0, 0, 0, 1]);
    assert!(matches!(action, ModbusAction::Skip));
}

#[test]
fn modbus_read_addresses_are_in_registers() {
    let head = vec![0, 7, 0, 0, 0, 6, 0, 4];
    let h = parse_modbus_header(&head).unwrap();
    match parse_modbus_request(3, h, &vec![0, 2, 0, 5]) {
        ModbusAction::Submit(q) => {
            assert_eq!(q.hid, 3);
            assert_eq!(q.addr, 4); // register 2 -> byte 4
            assert_eq!(q.count, 10); // 5 registers -> 10 bytes
            assert!(q.write.is_none());
        }
        _ => panic!("read frame must reach the bridge"),
    }
}

#[test]
fn modbus_write_multiple_carries_its_payload() {
    let head = vec![0, 7, 0, 0, 0, 11, 0, 16];
    let h = parse_modbus_header(&head).unwrap();
    assert_eq!(h.body_len, 9);
    let body = vec![0, 1, 0, 2, 4, 0xDE, 0xAD, 0xBE, 0xEF];
    match parse_modbus_request(1, h, &body) {
        ModbusAction::Submit(q) => {
            assert_eq!(q.addr, 2);
            assert_eq!(q.count, 4);
            assert_eq!(q.write, Some(vec![0xDE, 0xAD, 0xBE, 0xEF]));
        }
        _ => panic!("write-multiple frame must reach the bridge"),
    }
}

#[test]
fn scenario_write_multiple_with_wrong_byte_count_is_dropped() {
    // A write-multiple frame whose declared byte count disagrees with the
    // frame length is rejected before it reaches the bridge; the connection
    // stays open (the frame is only skipped) and no request is generated.
    let head = vec![0, 7, 0, 0, 0, 11, 0, 16];
    let h = parse_modbus_header(&head).unwrap();
    let body = vec![0, 1, 0, 2, 7, 0xDE, 0xAD, 0xBE, 0xEF];
    assert!(matches!(parse_modbus_request(1, h, &body), ModbusAction::Skip));
}

#[test]
fn modbus_unknown_function_code_is_answered_synchronously() {
    let head = vec![0x10, 0x20, 0, 0, 0, 2, 0, 0x2B];
    let h = parse_modbus_header(&head).unwrap();
    match parse_modbus_request(1, h, &vec![]) {
        ModbusAction::Reply(frame) => {
            assert_eq!(frame, vec![0x10, 0x20, 0, 0, 0, 3, 0, 0x2B | 0x80, 1]);
        }
        _ => panic!("unknown function code must be answered at once"),
    }
}

#[test]
fn modbus_read_reply_layout() {
    let resp = Response::Data(mb_req(4, 4, None, 0x0102, 3), vec![9, 8, 7, 6]);
    let frame = encode_modbus_response(&resp);
    assert_eq!(frame, vec![1, 2, 0, 0, 0, 7, 0, 3, 4, 9, 8, 7, 6]);
    // length field == total - 6, transaction id big-endian
    assert_eq!(BE::read_u16(&frame[4..6]) as usize, frame.len() - 6);
    assert_eq!(BE::read_u16(&frame[0..2]), 0x0102);
}

#[test]
fn modbus_write_single_reply_echoes_address_and_bytes() {
    let resp = Response::Data(mb_req(6, 2, None, 7, 6), vec![0xAA, 0xBB]);
    let frame = encode_modbus_response(&resp);
    assert_eq!(frame, vec![0, 7, 0, 0, 0, 6, 0, 6, 0, 6, 0xAA, 0xBB]);
}

#[test]
fn modbus_write_multiple_reply_counts_registers() {
    let resp = Response::Data(mb_req(2, 6, None, 7, 16), vec![1, 2, 3, 4, 5, 6]);
    let frame = encode_modbus_response(&resp);
    assert_eq!(frame, vec![0, 7, 0, 0, 0, 6, 0, 16, 0, 2, 0, 3]);
}

#[test]
fn modbus_error_reply_sets_the_high_bit() {
    let resp: Response<ModbusExtra> = Response::Error(mb_req(0, 8, None, 5, 4), 2);
    let frame = encode_modbus_response(&resp);
    assert_eq!(frame, vec![0, 5, 0, 0, 0, 3, 0, 0x84, 2]);
    assert_eq!(frame, encode_modbus_error(5, 4, 2));
}

#[test]
fn simple_header_parses_both_magics() {
    let mut head = vec![0u8; 12];
    LE::write_u32(&mut head[0..4], SIMPLE_READ);
    LE::write_u32(&mut head[4..8], 0x0102_0304);
    LE::write_u32(&mut head[8..12], 5);
    assert_eq!(parse_simple_header(&head), SimpleFrame::Read { addr: 0x0102_0304, count: 5 });

    LE::write_u32(&mut head[0..4], SIMPLE_WRITE);
    assert_eq!(parse_simple_header(&head), SimpleFrame::Write { addr: 0x0102_0304, count: 5 });

    LE::write_u32(&mut head[0..4], 0x1234_5678);
    assert_eq!(parse_simple_header(&head), SimpleFrame::Invalid);
}

#[test]
fn simple_requests_mark_their_direction() {
    let q = simple_read_request(2, 8, 4);
    assert_eq!((q.addr, q.count, q.extra), (8, 4, true));
    assert!(q.write.is_none());
    let q = simple_write_request(2, 8, vec![1, 2, 3]);
    assert_eq!((q.addr, q.count, q.extra), (8, 3, false));
    assert_eq!(q.write, Some(vec![1, 2, 3]));
}

#[test]
fn simple_read_reply_echoes_header_and_appends_payload() {
    let req = Request { hid: 1, addr: 3, count: 2, write: None, extra: true };
    let frame = encode_simple_response(&Response::Data(req, vec![0x55, 0x66]));
    assert_eq!(frame.len(), 14);
    assert_eq!(LE::read_u32(&frame[0..4]), SIMPLE_READ);
    assert_eq!(LE::read_u32(&frame[4..8]), 3);
    assert_eq!(LE::read_u32(&frame[8..12]), 2);
    assert_eq!(&frame[12..], &[0x55, 0x66]);
}

#[test]
fn simple_write_reply_is_the_bare_header() {
    let req = Request { hid: 1, addr: 7, count: 2, write: None, extra: false };
    let frame = encode_simple_response(&Response::Data(req, vec![0x55, 0x66]));
    assert_eq!(frame.len(), 12);
    assert_eq!(LE::read_u32(&frame[0..4]), SIMPLE_WRITE);
    assert_eq!(LE::read_u32(&frame[4..8]), 7);
    assert_eq!(LE::read_u32(&frame[8..12]), 2);
}

#[test]
fn simple_error_reply_echoes_header_with_error_magic() {
    let req = Request { hid: 1, addr: 9, count: 100, write: None, extra: true };
    let frame = encode_simple_response(&Response::Error(req, 2));
    assert_eq!(frame.len(), 12);
    assert_eq!(LE::read_u32(&frame[0..4]), SIMPLE_ERR);
    assert_eq!(LE::read_u32(&frame[4..8]), 9);
    assert_eq!(LE::read_u32(&frame[8..12]), 100);
}
