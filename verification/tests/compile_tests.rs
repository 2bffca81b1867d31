//! The descriptor compiler: identity inference, field layout, PDO grouping,
//! composition, repetition and SDO resolution.

use ethercat_plc::compile::{
    compile_device, compose, infer_slave_id, repeat_image, resolve_sdos, CompositeMember,
    ProcessConfig, SdoOverrides,
};
use ethercat_plc::types::{
    ConfigError, DeviceSchema, EntrySchema, FieldSchema, ProcessImageDescriptor, SdoAssign,
    SdoIdx, SdoSource, SdoValue, SlaveId,
};
use ethercat_plc::beckhoff::{EK1100, EL1502, EL1859, EL2574, EL3104, EL5032, EL7211_0010_Velocity};

fn schema(fields: Vec<FieldSchema>) -> DeviceSchema {
    DeviceSchema {
        name: "EL9999".to_owned(),
        id_override: None,
        fields,
        pdos: Vec::new(),
        watchdog: None,
        dc: None,
    }
}

fn field(bits: u32) -> FieldSchema {
    FieldSchema { bit_width: bits, entry: None }
}

fn entry_field(bits: u32, idx: u16, sub: u8) -> FieldSchema {
    FieldSchema { bit_width: bits, entry: Some(EntrySchema { pdo: None, idx, sub_idx: sub }) }
}

#[test]
fn identity_from_coupler_family() {
    let id = infer_slave_id("EK1100").unwrap();
    assert_eq!(id, SlaveId { vendor_id: 2, product_code: (1100 << 16) | 0x2c52 });
}

#[test]
fn identity_from_terminal_family() {
    let id = infer_slave_id("EL1502").unwrap();
    assert_eq!(id, SlaveId { vendor_id: 2, product_code: (1502 << 16) | 0x3052 });
}

#[test]
fn identity_ignores_suffix() {
    let id = infer_slave_id("EL7211_0010_Velocity").unwrap();
    assert_eq!(id, SlaveId { vendor_id: 2, product_code: (7211 << 16) | 0x3052 });
}

#[test]
fn identity_rejects_unknown_patterns() {
    assert_eq!(infer_slave_id("XY1000"), Err(ConfigError::UnknownIdentity));
    assert_eq!(infer_slave_id("EL95"), Err(ConfigError::UnknownIdentity));
    assert_eq!(infer_slave_id("EL95ab"), Err(ConfigError::UnknownIdentity));
    assert_eq!(infer_slave_id(""), Err(ConfigError::UnknownIdentity));
}

#[test]
fn identity_override_wins() {
    let mut s = schema(vec![]);
    s.name = "whatever".to_owned();
    s.id_override = Some(SlaveId { vendor_id: 7, product_code: 9 });
    let plan = compile_device(&s).unwrap();
    assert_eq!(plan.id, SlaveId { vendor_id: 7, product_code: 9 });
}

#[test]
fn register_table_empty_without_annotations() {
    // A device with fields of widths u16 and u32 and no entry annotations:
    // no registers, but the full 6 declared bytes.
    let plan = compile_device(&schema(vec![field(16), field(32)])).unwrap();
    assert_eq!(plan.regs.len(), 0);
    assert_eq!(plan.byte_size, 6);
    assert!(plan.pdos.is_none());
}

#[test]
fn offsets_accumulate_in_declaration_order() {
    let plan = compile_device(&schema(vec![
        entry_field(8, 0x6000, 1),
        field(32),
        entry_field(16, 0x7000, 2),
    ]))
    .unwrap();
    assert_eq!(plan.byte_size, 7);
    assert_eq!(plan.regs.len(), 2);
    assert_eq!(plan.regs[0].0.idx, 0x6000);
    assert_eq!(plan.regs[0].1.byte, 0);
    assert_eq!(plan.regs[0].1.bit, 0);
    assert_eq!(plan.regs[1].0.idx, 0x7000);
    assert_eq!(plan.regs[1].0.sub_idx, 2);
    assert_eq!(plan.regs[1].1.byte, 5);
    assert_eq!(plan.regs[1].1.bit, 0);
}

#[test]
fn unsupported_width_names_the_field() {
    let r = compile_device(&schema(vec![field(16), field(24)]));
    assert_eq!(r.unwrap_err(), ConfigError::UnsupportedWidth { field: 1 });
}

#[test]
fn el1502_layout() {
    let plan = compile_device(&EL1502::schema()).unwrap();
    // u16 + u32 per channel on both directions: 4 * (2 + 4) bytes
    assert_eq!(plan.byte_size, 24);
    assert_eq!(plan.regs.len(), 8);
    assert_eq!(plan.regs[1].1.byte, 2); // value_ch1 after status_ch1
    assert_eq!(plan.regs[4].1.byte, 12); // control_ch1 after the inputs
    let pdos = plan.pdos.unwrap();
    assert_eq!(pdos.len(), 2);
    // first annotation: sync manager 3, PDOs 0x1A00 and 0x1A01
    assert_eq!(pdos[0].0.idx, 3);
    assert_eq!(pdos[0].1.len(), 2);
    assert_eq!(pdos[0].1[0].idx, 0x1A00);
    assert_eq!(pdos[0].1[0].entries.len(), 2);
    assert_eq!(pdos[0].1[0].entries[0].entry_idx.idx, 0x6000);
    assert_eq!(pdos[0].1[0].entries[0].entry_idx.sub_idx, 1);
    assert_eq!(pdos[0].1[0].entries[0].bit_len, 16);
    assert_eq!(pdos[0].1[0].entries[1].bit_len, 32);
    assert_eq!(pdos[0].1[1].idx, 0x1A01);
    assert_eq!(pdos[1].0.idx, 2);
}

#[test]
fn unresolved_pdo_reference_gives_empty_list() {
    let mut s = schema(vec![entry_field(16, 0x6000, 1)]);
    s.pdos.push(ethercat_plc::types::PdoListSchema {
        sm: 3,
        direction: ethercat_plc::types::SyncDirection::Input,
        pdo_idxs: vec![0x1A55],
    });
    let plan = compile_device(&s).unwrap();
    let pdos = plan.pdos.unwrap();
    assert_eq!(pdos[0].1[0].idx, 0x1A55);
    assert_eq!(pdos[0].1[0].entries.len(), 0);
}

#[test]
fn catalog_devices_compile() {
    assert_eq!(compile_device(&EK1100::schema()).unwrap().byte_size, 0);
    assert_eq!(compile_device(&EL1859::schema()).unwrap().byte_size, 2);
    assert_eq!(compile_device(&EL3104::schema()).unwrap().regs.len(), 8);
    assert_eq!(compile_device(&EL2574::schema()).unwrap().byte_size, 56);
    let el5032 = compile_device(&EL5032::schema()).unwrap();
    assert_eq!(el5032.byte_size, 20);
    assert_eq!(el5032.watchdog.map(|w| (w.divider, w.intervals)), Some((1, 1)));
    let servo = compile_device(&EL7211_0010_Velocity::schema()).unwrap();
    assert_eq!(servo.dc.map(|d| d.assign_activate), Some(0x700));
}

fn member(image: ProcessImageDescriptor) -> CompositeMember {
    CompositeMember { image, sdo_override: None }
}

#[test]
fn descriptor_getters() {
    let a = compile_device(&EL1859::schema()).unwrap();
    let b = compile_device(&EL1502::schema()).unwrap();
    let id_a = a.id;
    let id_b = b.id;
    let d = ProcessImageDescriptor { slaves: vec![a, b] };
    assert_eq!(d.slave_count(), 2);
    assert_eq!(d.byte_size(), 2 + 24);
    assert_eq!(d.identities(), vec![id_a, id_b]);
}

#[test]
fn composite_byte_size_is_sum_of_members() {
    let a = ProcessImageDescriptor { slaves: vec![compile_device(&EL1859::schema()).unwrap()] };
    let b = ProcessImageDescriptor { slaves: vec![compile_device(&EL1502::schema()).unwrap()] };
    let c = ProcessImageDescriptor { slaves: vec![compile_device(&EK1100::schema()).unwrap()] };
    let all = compose(&vec![member(c), member(a), member(b)]);
    assert_eq!(all.slaves.len(), 3);
    let total: usize = all.slaves.iter().map(|p| p.byte_size).sum();
    assert_eq!(total, 0 + 2 + 24);
    // identities concatenated in order, register tables kept local
    assert_eq!(all.slaves[1].id, SlaveId { vendor_id: 2, product_code: (1859 << 16) | 0x3052 });
    assert_eq!(all.slaves[2].regs[1].1.byte, 2);
}

#[test]
fn composite_sdo_override_replaces_member_table() {
    let mut inner = compile_device(&EL1859::schema()).unwrap();
    inner.sdos.push(SdoAssign {
        idx: SdoIdx { idx: 0x8000, sub_idx: 1 },
        value: SdoSource::Literal(SdoValue::U8(1)),
    });
    let image = ProcessImageDescriptor { slaves: vec![inner] };
    let over = vec![SdoAssign {
        idx: SdoIdx { idx: 0x8010, sub_idx: 2 },
        value: SdoSource::Literal(SdoValue::U16(700)),
    }];
    let all = compose(&vec![CompositeMember { image, sdo_override: Some(over) }]);
    assert_eq!(all.slaves[0].sdos.len(), 1);
    assert_eq!(all.slaves[0].sdos[0].idx, SdoIdx { idx: 0x8010, sub_idx: 2 });
}

#[test]
fn repetition_concatenates_copies() {
    let d = ProcessImageDescriptor { slaves: vec![compile_device(&EL1502::schema()).unwrap()] };
    let r = repeat_image(&d, 3);
    assert_eq!(r.slaves.len(), 3);
    let total: usize = r.slaves.iter().map(|p| p.byte_size).sum();
    assert_eq!(total, 3 * 24);
    for k in 0..3 {
        assert_eq!(r.slaves[k].id, d.slaves[0].id);
        assert_eq!(r.slaves[k].regs.len(), d.slaves[0].regs.len());
        assert_eq!(r.slaves[k].regs[3].1.byte, d.slaves[0].regs[3].1.byte);
    }
}

#[test]
fn sdo_literals_resolve_without_a_source() {
    let mut plan = compile_device(&EL1859::schema()).unwrap();
    plan.sdos.push(SdoAssign {
        idx: SdoIdx { idx: 0x8000, sub_idx: 1 },
        value: SdoSource::Literal(SdoValue::I32(-5)),
    });
    let d = ProcessImageDescriptor { slaves: vec![plan] };
    let cfg = SdoOverrides { entries: vec![] };
    let tables = resolve_sdos(&d, &cfg).unwrap();
    assert_eq!(tables.len(), 1);
    assert_eq!(tables[0], vec![(SdoIdx { idx: 0x8000, sub_idx: 1 }, SdoValue::I32(-5))]);
}

#[test]
fn sdo_placeholder_resolves_from_the_source() {
    let mut plan = compile_device(&EL1859::schema()).unwrap();
    plan.sdos.push(SdoAssign {
        idx: SdoIdx { idx: 0x8000, sub_idx: 1 },
        value: SdoSource::Var("max_current".to_owned()),
    });
    let d = ProcessImageDescriptor { slaves: vec![plan] };
    let cfg = SdoOverrides {
        entries: vec![("max_current".to_owned(), SdoValue::U16(1500))],
    };
    assert_eq!(cfg.get_sdo_var("max_current"), Some(SdoValue::U16(1500)));
    assert_eq!(cfg.get_sdo_var("other"), None);
    let tables = resolve_sdos(&d, &cfg).unwrap();
    assert_eq!(tables[0][0].1, SdoValue::U16(1500));
}

#[test]
fn sdo_unresolved_placeholder_fails_naming_it() {
    let mut plan = compile_device(&EL1859::schema()).unwrap();
    plan.sdos.push(SdoAssign {
        idx: SdoIdx { idx: 0x8000, sub_idx: 1 },
        value: SdoSource::Var("missing_value".to_owned()),
    });
    let d = ProcessImageDescriptor { slaves: vec![plan] };
    let cfg = SdoOverrides { entries: vec![] };
    let e = resolve_sdos(&d, &cfg).unwrap_err();
    assert_eq!(e, ConfigError::UnresolvedSdoVar { name: "missing_value".to_owned() });
}
