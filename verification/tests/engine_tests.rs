//! The engine's decisions: bring-up layout checks, the builder, tick
//! timing, the external image accessors, and the channel-facing exchange and
//! dispatcher.

use crossbeam_channel::unbounded;
use ethercat_plc::bridge::{Request, Response};
use ethercat_plc::channel::{data_exchange, dispatch_event, HandlerEvent, HandlerTable};
use ethercat_plc::compile::compile_device;
use ethercat_plc::image::ExternImage;
use ethercat_plc::plc::{
    check_device_offsets, cycle_period_ns, next_cycle_start, sleep_until, verify_layout,
    PlcBuilder,
};
use ethercat_plc::types::{
    ConfigError, DeviceSchema, EntrySchema, FieldSchema, Offset, ProcessImageDescriptor,
};

fn reg_field(bits: u32, idx: u16) -> FieldSchema {
    FieldSchema { bit_width: bits, entry: Some(EntrySchema { pdo: None, idx, sub_idx: 1 }) }
}

fn device(name: &str, fields: Vec<FieldSchema>) -> DeviceSchema {
    DeviceSchema {
        name: name.to_owned(),
        id_override: None,
        fields,
        pdos: Vec::new(),
        watchdog: None,
        dc: None,
    }
}

/// A composite of two devices: 2 declared bytes, then 4.
fn two_device_image() -> ProcessImageDescriptor {
    let d1 = compile_device(&device("EL1111", vec![reg_field(16, 0x6000)])).unwrap();
    let d2 = compile_device(&device("EL2222", vec![reg_field(16, 0x7000), reg_field(16, 0x7010)]))
        .unwrap();
    ProcessImageDescriptor { slaves: vec![d1, d2] }
}

#[test]
fn scenario_second_device_confirmed_at_accumulated_offset() {
    // Composite of byte sizes [2, 4]: the second device's first registered
    // entry must be confirmed at absolute byte offset 2.
    let image = two_device_image();
    let reported = vec![
        vec![Offset { byte: 0, bit: 0 }],
        vec![Offset { byte: 2, bit: 0 }, Offset { byte: 4, bit: 0 }],
    ];
    assert_eq!(verify_layout(&image, &reported, 6), Ok(()));

    // any other reported offset aborts bring-up naming device index 1
    let misplaced = vec![
        vec![Offset { byte: 0, bit: 0 }],
        vec![Offset { byte: 3, bit: 0 }, Offset { byte: 5, bit: 0 }],
    ];
    assert_eq!(
        verify_layout(&image, &misplaced, 6),
        Err(ConfigError::FirstEntryMisplaced { device: 1 })
    );
}

#[test]
fn first_entry_must_be_bit_aligned() {
    let image = two_device_image();
    let reported = vec![
        vec![Offset { byte: 0, bit: 3 }],
        vec![Offset { byte: 2, bit: 0 }, Offset { byte: 4, bit: 0 }],
    ];
    assert_eq!(
        verify_layout(&image, &reported, 6),
        Err(ConfigError::FirstEntryMisplaced { device: 0 })
    );
}

#[test]
fn later_entry_off_its_declared_offset_is_named() {
    let reported = vec![
        Offset { byte: 2, bit: 0 },
        Offset { byte: 5, bit: 0 }, // declared local offset 2 + start 2 = 4
    ];
    let d2 = compile_device(&device("EL2222", vec![reg_field(16, 0x7000), reg_field(16, 0x7010)]))
        .unwrap();
    assert_eq!(
        check_device_offsets(1, &reported, &d2.regs, 2),
        Err(ConfigError::EntryOffsetMismatch { device: 1, entry: 1 })
    );
}

#[test]
fn domain_size_mismatch_aborts() {
    let image = two_device_image();
    let reported = vec![
        vec![Offset { byte: 0, bit: 0 }],
        vec![Offset { byte: 2, bit: 0 }, Offset { byte: 4, bit: 0 }],
    ];
    assert_eq!(
        verify_layout(&image, &reported, 8),
        Err(ConfigError::SizeMismatch { reported: 8, declared: 6 })
    );
}

#[test]
fn builder_collects_the_runtime_configuration() {
    let b = PlcBuilder::new("plc")
        .master_id(1)
        .cycle_freq(2)
        .with_server("0.0.0.0:5020")
        .logging_cfg(None, true);
    assert_eq!(b.name, "plc");
    assert_eq!(b.master_id, Some(1));
    assert_eq!(b.effective_master_id(), 1);
    assert_eq!(b.effective_cycle_freq(), 2);
    assert_eq!(b.server_addr.as_deref(), Some("0.0.0.0:5020"));
    assert_eq!(b.logfile_base, None);
    assert!(b.debug_logging);
}

#[test]
fn builder_defaults() {
    let b = PlcBuilder::new("plc");
    assert_eq!(b.effective_master_id(), 0);
    assert_eq!(b.effective_cycle_freq(), 1000);
    assert!(b.server_addr.is_none());
}

#[test]
fn tick_arithmetic() {
    assert_eq!(cycle_period_ns(1000), 1_000_000);
    assert_eq!(cycle_period_ns(2), 500_000_000);
    assert_eq!(next_cycle_start(10, 25), 35);
    assert_eq!(sleep_until(30, 35), 5);
    // a boundary already passed means no sleep and no catch-up
    assert_eq!(sleep_until(40, 35), 0);
}

#[test]
fn extern_image_typed_accessors_are_little_endian() {
    let mut img = ExternImage::new(16);
    assert_eq!(img.size(), 16);
    img.write_u16(0, 0x0102);
    img.write_u32(2, 0x0A0B_0C0D);
    img.write_u64(8, 0x1122_3344_5566_7788);
    assert_eq!(img.data[0], 0x02);
    assert_eq!(img.data[1], 0x01);
    assert_eq!(img.data[2], 0x0D);
    assert_eq!(img.data[5], 0x0A);
    assert_eq!(img.data[8], 0x88);
    assert_eq!(img.data[15], 0x11);
    assert_eq!(img.read_u16(0), 0x0102);
    assert_eq!(img.read_u32(2), 0x0A0B_0C0D);
    assert_eq!(img.read_u64(8), 0x1122_3344_5566_7788);
    img.write_u8(6, 0xFE);
    assert_eq!(img.read_u8(6), 0xFE);
}

#[test]
fn exchange_answers_reads_and_stops_after_a_write() {
    let (req_tx, req_rx) = unbounded::<Request<()>>();
    let (resp_tx, resp_rx) = unbounded::<Response<()>>();
    let mut image = vec![0u8; 4];

    req_tx.send(Request { hid: 1, addr: 0, count: 2, write: None, extra: () }).unwrap();
    req_tx
        .send(Request { hid: 1, addr: 1, count: 2, write: Some(vec![5, 6]), extra: () })
        .unwrap();
    req_tx.send(Request { hid: 1, addr: 0, count: 1, write: None, extra: () }).unwrap();

    data_exchange(&req_rx, &resp_tx, &mut image, 100);

    assert_eq!(image, vec![0, 5, 6, 0]);
    match resp_rx.try_recv().unwrap() {
        Response::Data(_, bytes) => assert_eq!(bytes, vec![0, 0]),
        Response::Error(..) => panic!("read must succeed"),
    }
    match resp_rx.try_recv().unwrap() {
        Response::Data(_, echoed) => assert_eq!(echoed, vec![5, 6]),
        Response::Error(..) => panic!("write must succeed"),
    }
    // the pass stopped for this tick: the last read is still pending
    assert!(resp_rx.try_recv().is_err());
    let next_tick = req_rx.try_recv().unwrap();
    assert_eq!(next_tick.addr, 0);
    assert_eq!(next_tick.count, 1);
}

#[test]
fn dispatcher_routes_the_one_response_to_its_handler() {
    let (to_plc_tx, to_plc_rx) = unbounded::<Request<()>>();
    let (from_plc_tx, from_plc_rx) = unbounded::<Response<()>>();
    let (h1_tx, h1_rx) = unbounded::<Response<()>>();

    let mut table: HandlerTable<()> = HandlerTable::new();
    dispatch_event(&mut table, &to_plc_tx, &from_plc_rx, HandlerEvent::New((1, h1_tx)));

    // the engine's one response per request, preloaded so the blocking wait
    // returns at once
    let req = Request { hid: 1, addr: 0, count: 1, write: None, extra: () };
    from_plc_tx.send(Response::Data(
        Request { hid: 1, addr: 0, count: 1, write: None, extra: () },
        vec![42],
    ))
    .unwrap();
    dispatch_event(&mut table, &to_plc_tx, &from_plc_rx, HandlerEvent::Request(req));

    // the request reached the engine and the response its handler
    assert_eq!(to_plc_rx.try_recv().unwrap().hid, 1);
    match h1_rx.try_recv().unwrap() {
        Response::Data(_, bytes) => assert_eq!(bytes, vec![42]),
        Response::Error(..) => panic!("the routed response was a read result"),
    }

    // once the handler is gone its response is dropped, not misrouted
    dispatch_event(&mut table, &to_plc_tx, &from_plc_rx, HandlerEvent::Finished(1));
    from_plc_tx.send(Response::Error(
        Request { hid: 1, addr: 0, count: 1, write: None, extra: () },
        2,
    ))
    .unwrap();
    let req = Request { hid: 1, addr: 9, count: 1, write: None, extra: () };
    dispatch_event(&mut table, &to_plc_tx, &from_plc_rx, HandlerEvent::Request(req));
    assert!(h1_rx.try_recv().is_err());
}
