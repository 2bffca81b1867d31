//! The access bridge: per-request answers, the drain policy, and the
//! write-then-read round trip over the wire protocol.

use ethercat_plc::bridge::{drain_pending, handle_request, Request, Response, RANGE_ERROR};
use ethercat_plc::modbus::{parse_modbus_header, parse_modbus_request, ModbusAction, ModbusExtra};

fn read_req(addr: usize, count: usize) -> Request<()> {
    Request { hid: 1, addr, count, write: None, extra: () }
}

fn write_req(addr: usize, bytes: Vec<u8>) -> Request<()> {
    let count = bytes.len();
    Request { hid: 1, addr, count, write: Some(bytes), extra: () }
}

#[test]
fn out_of_range_read_is_error_2_not_partial() {
    let mut image = vec![0u8; 4];
    match handle_request(read_req(2, 3), &mut image) {
        Response::Error(r, code) => {
            assert_eq!(code, RANGE_ERROR);
            assert_eq!(r.addr, 2);
            assert_eq!(r.count, 3);
        }
        Response::Data(..) => panic!("out-of-range read must not produce data"),
    }
    assert_eq!(image, vec![0u8; 4]);
}

#[test]
fn out_of_range_write_is_error_2_and_leaves_the_image() {
    let mut image = vec![9u8; 2];
    match handle_request(write_req(1, vec![1, 2]), &mut image) {
        Response::Error(_, code) => assert_eq!(code, RANGE_ERROR),
        Response::Data(..) => panic!("out-of-range write must not echo data"),
    }
    assert_eq!(image, vec![9u8, 9u8]);
}

#[test]
fn scenario_write_then_read_whole_image() {
    // External image of size 4: a write of [1,2,3,4] at 0 echoes the bytes,
    // and a subsequent read of the same range returns them.
    let mut image = vec![0u8; 4];
    match handle_request(write_req(0, vec![1, 2, 3, 4]), &mut image) {
        Response::Data(r, echoed) => {
            assert_eq!(echoed, vec![1, 2, 3, 4]);
            assert!(r.write.is_none());
        }
        Response::Error(..) => panic!("in-range write must succeed"),
    }
    assert_eq!(image, vec![1, 2, 3, 4]);
    match handle_request(read_req(0, 4), &mut image) {
        Response::Data(_, bytes) => assert_eq!(bytes, vec![1, 2, 3, 4]),
        Response::Error(..) => panic!("in-range read must succeed"),
    }
}

#[test]
fn partial_read_returns_the_addressed_bytes() {
    let mut image = vec![10, 20, 30, 40];
    match handle_request(read_req(1, 2), &mut image) {
        Response::Data(_, bytes) => assert_eq!(bytes, vec![20, 30]),
        Response::Error(..) => panic!("in-range read must succeed"),
    }
}

#[test]
fn drain_processes_up_to_the_first_write() {
    // Queue: read, read, write, read, read — the pass answers exactly
    // min(queue length, position of first write) = 3 requests.
    let pending = vec![
        read_req(0, 1),
        read_req(1, 1),
        write_req(0, vec![7]),
        read_req(0, 1),
        read_req(2, 1),
    ];
    let mut image = vec![0u8; 4];
    let (responses, leftover) = drain_pending(pending, &mut image);
    assert_eq!(responses.len(), 3);
    assert_eq!(leftover.len(), 2);
    assert_eq!(image[0], 7);
    // the two reads before the write saw the old image
    match &responses[0] {
        Response::Data(_, bytes) => assert_eq!(bytes, &vec![0]),
        Response::Error(..) => panic!("read must succeed"),
    }
    match &responses[2] {
        Response::Data(_, echoed) => assert_eq!(echoed, &vec![7]),
        Response::Error(..) => panic!("write must succeed"),
    }
}

#[test]
fn drain_without_a_write_answers_everything() {
    let pending = vec![read_req(0, 2), read_req(2, 2), read_req(0, 9)];
    let mut image = vec![1u8, 2, 3, 4];
    let (responses, leftover) = drain_pending(pending, &mut image);
    assert_eq!(responses.len(), 3);
    assert_eq!(leftover.len(), 0);
    assert!(matches!(&responses[2], Response::Error(_, 2)));
    assert_eq!(image, vec![1, 2, 3, 4]);
}

#[test]
fn drain_continues_past_an_out_of_range_write() {
    // The first write is out of range: it is answered with an error and the
    // pass keeps going; the later in-range write ends it.
    let pending = vec![write_req(3, vec![5, 6]), read_req(0, 1), write_req(0, vec![8])];
    let mut image = vec![0u8; 4];
    let (responses, leftover) = drain_pending(pending, &mut image);
    assert_eq!(responses.len(), 3);
    assert_eq!(leftover.len(), 0);
    assert!(matches!(&responses[0], Response::Error(_, 2)));
    assert_eq!(image, vec![8, 0, 0, 0]);
}

#[test]
fn drain_on_empty_queue_does_nothing() {
    let mut image = vec![4u8; 2];
    let (responses, leftover) = drain_pending(Vec::<Request<()>>::new(), &mut image);
    assert_eq!(responses.len(), 0);
    assert_eq!(leftover.len(), 0);
    assert_eq!(image, vec![4, 4]);
}

fn modbus_frame(tid: u16, fc: u8, body: &[u8]) -> (Vec<u8>, Vec<u8>) {
    let len = (body.len() + 2) as u16;
    let head = vec![
        (tid >> 8) as u8,
        tid as u8,
        0,
        0,
        (len >> 8) as u8,
        len as u8,
        0,
        fc,
    ];
    (head, body.to_vec())
}

#[test]
fn wire_round_trip_single_register_write_then_read() {
    // Write 2 bytes via a single-register write (function code 6) at
    // register 0, then read 1 register (function code 3) at 0: exactly the
    // two written bytes come back.
    let mut image = vec![0u8; 4];

    let (head, body) = modbus_frame(1, 6, &[0, 0, 0xAB, 0xCD]);
    let h = parse_modbus_header(&head).unwrap();
    assert_eq!(body.len(), h.body_len);
    let q = match parse_modbus_request(1, h, &body) {
        ModbusAction::Submit(q) => q,
        _ => panic!("a well-formed write frame must reach the bridge"),
    };
    assert_eq!(q.addr, 0);
    assert_eq!(q.count, 2);
    match handle_request(q, &mut image) {
        Response::Data(_, echoed) => assert_eq!(echoed, vec![0xAB, 0xCD]),
        Response::Error(..) => panic!("in-range write must succeed"),
    }

    let (head, body) = modbus_frame(2, 3, &[0, 0, 0, 1]);
    let h = parse_modbus_header(&head).unwrap();
    let q = match parse_modbus_request(1, h, &body) {
        ModbusAction::Submit(q) => q,
        _ => panic!("a well-formed read frame must reach the bridge"),
    };
    assert_eq!(q.addr, 0);
    assert_eq!(q.count, 2);
    match handle_request(q, &mut image) {
        Response::Data(r, bytes) => {
            assert_eq!(bytes, vec![0xAB, 0xCD]);
            assert_eq!(r.extra, ModbusExtra { tid: 2, fc: 3 });
        }
        Response::Error(..) => panic!("in-range read must succeed"),
    }
}
