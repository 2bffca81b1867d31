//! The catalog of concrete device types: pure data. Each type carries the
//! declared fields of its process image in declaration order, and `schema()`
//! hands the compiler the same layout together with the device-level PDO,
//! watchdog and distributed-clock annotations; every catalog schema
//! compiles.

use vstd::prelude::*;

use crate::compile::{name_ok, schema_ok, widths_ok};
use crate::types::{DcCfg, DeviceSchema, EntrySchema, FieldSchema, PdoListSchema, SyncDirection, WatchdogCfg};

verus! {

/// An empty schema under the given type name.
fn base_schema(name: &str) -> (s: DeviceSchema)
    ensures
        s.name@ == name@,
        s.id_override is None,
        s.fields@.len() == 0,
        s.pdos@.len() == 0,
        s.watchdog is None,
        s.dc is None,
{
    DeviceSchema {
        name: name.to_owned(),
        id_override: None,
        fields: Vec::new(),
        pdos: Vec::new(),
        watchdog: None,
        dc: None,
    }
}

/// Appends a field without an entry annotation.
fn plain_field(s: &mut DeviceSchema, bits: u32)
    ensures
        final(s).fields@ == old(s).fields@.push(FieldSchema { bit_width: bits, entry: None }),
        final(s).name == old(s).name,
        final(s).id_override == old(s).id_override,
        final(s).pdos == old(s).pdos,
        final(s).watchdog == old(s).watchdog,
        final(s).dc == old(s).dc,
{
    s.fields.push(FieldSchema { bit_width: bits, entry: None });
}

/// Appends a field whose entry feeds only the register table.
fn entry_field(s: &mut DeviceSchema, bits: u32, idx: u16, sub: u8)
    ensures
        final(s).fields@ == old(s).fields@.push(
            FieldSchema { bit_width: bits, entry: Some(EntrySchema { pdo: None, idx, sub_idx: sub }) },
        ),
        final(s).name == old(s).name,
        final(s).id_override == old(s).id_override,
        final(s).pdos == old(s).pdos,
        final(s).watchdog == old(s).watchdog,
        final(s).dc == old(s).dc,
{
    s.fields.push(FieldSchema { bit_width: bits, entry: Some(EntrySchema { pdo: None, idx, sub_idx: sub }) });
}

/// Appends a field whose entry is also mapped through the given PDO.
fn pdo_entry_field(s: &mut DeviceSchema, bits: u32, pdo: u16, idx: u16, sub: u8)
    ensures
        final(s).fields@ == old(s).fields@.push(
            FieldSchema {
                bit_width: bits,
                entry: Some(EntrySchema { pdo: Some(pdo), idx, sub_idx: sub }),
            },
        ),
        final(s).name == old(s).name,
        final(s).id_override == old(s).id_override,
        final(s).pdos == old(s).pdos,
        final(s).watchdog == old(s).watchdog,
        final(s).dc == old(s).dc,
{
    s.fields.push(
        FieldSchema { bit_width: bits, entry: Some(EntrySchema { pdo: Some(pdo), idx, sub_idx: sub }) },
    );
}

/// Appends a device-level "pdos" annotation: one sync manager with its PDOs.
fn pdo_list(s: &mut DeviceSchema, sm: u8, direction: SyncDirection, pdo_idxs: Vec<u16>)
    ensures
        final(s).pdos@.len() == old(s).pdos@.len() + 1,
        forall|k: int| 0 <= k < old(s).pdos@.len() ==> final(s).pdos@[k] == old(s).pdos@[k],
        final(s).pdos@.last().sm == sm,
        final(s).pdos@.last().direction == direction,
        final(s).pdos@.last().pdo_idxs@ == pdo_idxs@,
        final(s).name == old(s).name,
        final(s).id_override == old(s).id_override,
        final(s).fields == old(s).fields,
        final(s).watchdog == old(s).watchdog,
        final(s).dc == old(s).dc,
{
    s.pdos.push(PdoListSchema { sm, direction, pdo_idxs });
}

/// Sets the device-level watchdog annotation.
fn with_watchdog(s: &mut DeviceSchema, divider: u16, intervals: u16)
    ensures
        final(s).watchdog == Some(WatchdogCfg { divider, intervals }),
        final(s).name == old(s).name,
        final(s).id_override == old(s).id_override,
        final(s).fields == old(s).fields,
        final(s).pdos == old(s).pdos,
        final(s).dc == old(s).dc,
{
    s.watchdog = Some(WatchdogCfg { divider, intervals });
}

/// Sets the device-level distributed-clock annotation.
fn with_dc(
    s: &mut DeviceSchema,
    assign_activate: u16,
    cycle_time0: u32,
    shift_time0: i32,
    cycle_time1: u32,
    shift_time1: i32,
)
    ensures
        final(s).dc == Some(
            DcCfg { assign_activate, cycle_time0, shift_time0, cycle_time1, shift_time1 },
        ),
        final(s).name == old(s).name,
        final(s).id_override == old(s).id_override,
        final(s).fields == old(s).fields,
        final(s).pdos == old(s).pdos,
        final(s).watchdog == old(s).watchdog,
{
    s.dc = Some(DcCfg { assign_activate, cycle_time0, shift_time0, cycle_time1, shift_time1 });
}


#[derive(Clone, Copy, Default, Debug)]
pub struct EK1100 {}

impl EK1100 {
    pub fn schema() -> (s: DeviceSchema)
        ensures
            schema_ok(s),
    {
        let mut s = base_schema("EK1100");
        proof {
            reveal_strlit("EK1100");
            assert(name_ok(s.name@));
            assert(widths_ok(s.fields@));
        }
        s
    }
}

#[derive(Clone, Copy, Default, Debug)]
pub struct EK1110 {}

impl EK1110 {
    pub fn schema() -> (s: DeviceSchema)
        ensures
            schema_ok(s),
    {
        let mut s = base_schema("EK1110");
        proof {
            reveal_strlit("EK1110");
            assert(name_ok(s.name@));
            assert(widths_ok(s.fields@));
        }
        s
    }
}

#[derive(Clone, Copy, Default, Debug)]
pub struct EK1818 {
    pub input: u8,
    pub output: u8,
}

impl EK1818 {
    pub fn schema() -> (s: DeviceSchema)
        ensures
            schema_ok(s),
    {
        let mut s = base_schema("EK1818");
        entry_field(&mut s, 8, 0x6000, 1);
        entry_field(&mut s, 8, 0x7000, 1);
        proof {
            reveal_strlit("EK1818");
            assert(name_ok(s.name@));
            assert(widths_ok(s.fields@));
        }
        s
    }
}

#[derive(Clone, Copy, Default, Debug)]
pub struct EL1008 {
    pub input: u8,
}

impl EL1008 {
    pub fn schema() -> (s: DeviceSchema)
        ensures
            schema_ok(s),
    {
        let mut s = base_schema("EL1008");
        entry_field(&mut s, 8, 0x6000, 1);
        proof {
            reveal_strlit("EL1008");
            assert(name_ok(s.name@));
            assert(widths_ok(s.fields@));
        }
        s
    }
}

#[derive(Clone, Copy, Default, Debug)]
pub struct EL1018 {
    pub input: u8,
}

impl EL1018 {
    pub fn schema() -> (s: DeviceSchema)
        ensures
            schema_ok(s),
    {
        let mut s = base_schema("EL1018");
        entry_field(&mut s, 8, 0x6000, 1);
        proof {
            reveal_strlit("EL1018");
            assert(name_ok(s.name@));
            assert(widths_ok(s.fields@));
        }
        s
    }
}

#[derive(Clone, Copy, Default, Debug)]
pub struct EL1502 {
    pub status_ch1: u16,
    pub value_ch1: u32,
    pub status_ch2: u16,
    pub value_ch2: u32,
    pub control_ch1: u16,
    pub setvalue_ch1: u32,
    pub control_ch2: u16,
    pub setvalue_ch2: u32,
}

impl EL1502 {
    pub fn schema() -> (s: DeviceSchema)
        ensures
            schema_ok(s),
    {
        let mut s = base_schema("EL1502");
        pdo_entry_field(&mut s, 16, 0x1A00, 0x6000, 1);
        pdo_entry_field(&mut s, 32, 0x1A00, 0x6000, 17);
        pdo_entry_field(&mut s, 16, 0x1A01, 0x6010, 1);
        pdo_entry_field(&mut s, 32, 0x1A01, 0x6010, 17);
        pdo_entry_field(&mut s, 16, 0x1600, 0x7000, 1);
        pdo_entry_field(&mut s, 32, 0x1600, 0x7000, 17);
        pdo_entry_field(&mut s, 16, 0x1601, 0x7010, 1);
        pdo_entry_field(&mut s, 32, 0x1601, 0x7010, 17);
        pdo_list(&mut s, 3, SyncDirection::Input, vec![0x1A00, 0x1A01]);
        pdo_list(&mut s, 2, SyncDirection::Output, vec![0x1600, 0x1601]);
        proof {
            reveal_strlit("EL1502");
            assert(name_ok(s.name@));
            assert(widths_ok(s.fields@));
        }
        s
    }
}

#[allow(non_camel_case_types)]
#[derive(Clone, Copy, Default, Debug)]
pub struct EL1502_UpDown {
    pub status: u16,
    pub value: u32,
    pub control: u16,
    pub setvalue: u32,
}

impl EL1502_UpDown {
    pub fn schema() -> (s: DeviceSchema)
        ensures
            schema_ok(s),
    {
        let mut s = base_schema("EL1502_UpDown");
        pdo_entry_field(&mut s, 16, 0x1A02, 0x6020, 1);
        pdo_entry_field(&mut s, 32, 0x1A02, 0x6020, 17);
        pdo_entry_field(&mut s, 16, 0x1602, 0x7020, 1);
        pdo_entry_field(&mut s, 32, 0x1602, 0x7020, 17);
        pdo_list(&mut s, 3, SyncDirection::Input, vec![0x1A02]);
        pdo_list(&mut s, 2, SyncDirection::Output, vec![0x1602]);
        proof {
            reveal_strlit("EL1502_UpDown");
            assert(name_ok(s.name@));
            assert(widths_ok(s.fields@));
        }
        s
    }
}

#[derive(Clone, Copy, Default, Debug)]
pub struct EL1859 {
    pub input: u8,
    pub output: u8,
}

impl EL1859 {
    pub fn schema() -> (s: DeviceSchema)
        ensures
            schema_ok(s),
    {
        let mut s = base_schema("EL1859");
        entry_field(&mut s, 8, 0x6000, 1);
        entry_field(&mut s, 8, 0x7080, 1);
        proof {
            reveal_strlit("EL1859");
            assert(name_ok(s.name@));
            assert(widths_ok(s.fields@));
        }
        s
    }
}

#[derive(Clone, Copy, Default, Debug)]
pub struct EL2008 {
    pub output: u8,
}

impl EL2008 {
    pub fn schema() -> (s: DeviceSchema)
        ensures
            schema_ok(s),
    {
        let mut s = base_schema("EL2008");
        entry_field(&mut s, 8, 0x7000, 1);
        proof {
            reveal_strlit("EL2008");
            assert(name_ok(s.name@));
            assert(widths_ok(s.fields@));
        }
        s
    }
}

#[derive(Clone, Copy, Default, Debug)]
pub struct EL2535 {
    pub state_ch1: u16,
    pub state_ch2: u16,
    pub control_ch1: u16,
    pub output_ch1: u16,
    pub control_ch2: u16,
    pub output_ch2: u16,
}

impl EL2535 {
    pub fn schema() -> (s: DeviceSchema)
        ensures
            schema_ok(s),
    {
        let mut s = base_schema("EL2535");
        pdo_entry_field(&mut s, 16, 0x1A00, 0x6000, 1);
        pdo_entry_field(&mut s, 16, 0x1A02, 0x6010, 1);
        pdo_entry_field(&mut s, 16, 0x1600, 0x7000, 1);
        pdo_entry_field(&mut s, 16, 0x1600, 0x7000, 0x11);
        pdo_entry_field(&mut s, 16, 0x1601, 0x7010, 1);
        pdo_entry_field(&mut s, 16, 0x1601, 0x7010, 0x11);
        pdo_list(&mut s, 3, SyncDirection::Input, vec![0x1A00, 0x1A02]);
        pdo_list(&mut s, 2, SyncDirection::Output, vec![0x1600, 0x1601]);
        proof {
            reveal_strlit("EL2535");
            assert(name_ok(s.name@));
            assert(widths_ok(s.fields@));
        }
        s
    }
}

#[derive(Clone, Copy, Default, Debug)]
pub struct EL2574 {
    pub ch1_status: u16,
    pub ch2_status: u16,
    pub ch3_status: u16,
    pub ch4_status: u16,
    pub ch1_control: u8,
    pub ch1_command: u16,
    pub ch1_index: u16,
    pub ch1_length: u16,
    pub ch1_param: u8,
    pub ch1_red: u8,
    pub ch1_green: u8,
    pub ch1_blue: u8,
    pub ch1_white: u8,
    pub ch2_control: u8,
    pub ch2_command: u16,
    pub ch2_index: u16,
    pub ch2_length: u16,
    pub ch2_param: u8,
    pub ch2_red: u8,
    pub ch2_green: u8,
    pub ch2_blue: u8,
    pub ch2_white: u8,
    pub ch3_control: u8,
    pub ch3_command: u16,
    pub ch3_index: u16,
    pub ch3_length: u16,
    pub ch3_param: u8,
    pub ch3_red: u8,
    pub ch3_green: u8,
    pub ch3_blue: u8,
    pub ch3_white: u8,
    pub ch4_control: u8,
    pub ch4_command: u16,
    pub ch4_index: u16,
    pub ch4_length: u16,
    pub ch4_param: u8,
    pub ch4_red: u8,
    pub ch4_green: u8,
    pub ch4_blue: u8,
    pub ch4_white: u8,
}

impl EL2574 {
    pub fn schema() -> (s: DeviceSchema)
        ensures
            schema_ok(s),
    {
        let mut s = base_schema("EL2574");
        pdo_entry_field(&mut s, 16, 0x1A00, 0x6000, 1);
        pdo_entry_field(&mut s, 16, 0x1A10, 0x6010, 1);
        pdo_entry_field(&mut s, 16, 0x1A20, 0x6020, 1);
        pdo_entry_field(&mut s, 16, 0x1A30, 0x6030, 1);
        pdo_entry_field(&mut s, 8, 0x1600, 0x7000, 1);
        pdo_entry_field(&mut s, 16, 0x1600, 0x7000, 9);
        pdo_entry_field(&mut s, 16, 0x1600, 0x7000, 0x11);
        pdo_entry_field(&mut s, 16, 0x1600, 0x7000, 0x12);
        pdo_entry_field(&mut s, 8, 0x1600, 0x7000, 0x13);
        pdo_entry_field(&mut s, 8, 0x1600, 0x7000, 0x21);
        pdo_entry_field(&mut s, 8, 0x1600, 0x7000, 0x22);
        pdo_entry_field(&mut s, 8, 0x1600, 0x7000, 0x23);
        pdo_entry_field(&mut s, 8, 0x1600, 0x7000, 0x24);
        pdo_entry_field(&mut s, 8, 0x1600, 0x7010, 1);
        pdo_entry_field(&mut s, 16, 0x1600, 0x7010, 9);
        pdo_entry_field(&mut s, 16, 0x1600, 0x7010, 0x11);
        pdo_entry_field(&mut s, 16, 0x1600, 0x7010, 0x12);
        pdo_entry_field(&mut s, 8, 0x1600, 0x7010, 0x13);
        pdo_entry_field(&mut s, 8, 0x1600, 0x7010, 0x21);
        pdo_entry_field(&mut s, 8, 0x1600, 0x7010, 0x22);
        pdo_entry_field(&mut s, 8, 0x1600, 0x7010, 0x23);
        pdo_entry_field(&mut s, 8, 0x1600, 0x7010, 0x24);
        pdo_entry_field(&mut s, 8, 0x1600, 0x7020, 1);
        pdo_entry_field(&mut s, 16, 0x1600, 0x7020, 9);
        pdo_entry_field(&mut s, 16, 0x1600, 0x7020, 0x11);
        pdo_entry_field(&mut s, 16, 0x1600, 0x7020, 0x12);
        pdo_entry_field(&mut s, 8, 0x1600, 0x7020, 0x13);
        pdo_entry_field(&mut s, 8, 0x1600, 0x7020, 0x21);
        pdo_entry_field(&mut s, 8, 0x1600, 0x7020, 0x22);
        pdo_entry_field(&mut s, 8, 0x1600, 0x7020, 0x23);
        pdo_entry_field(&mut s, 8, 0x1600, 0x7020, 0x24);
        pdo_entry_field(&mut s, 8, 0x1600, 0x7030, 1);
        pdo_entry_field(&mut s, 16, 0x1600, 0x7030, 9);
        pdo_entry_field(&mut s, 16, 0x1600, 0x7030, 0x11);
        pdo_entry_field(&mut s, 16, 0x1600, 0x7030, 0x12);
        pdo_entry_field(&mut s, 8, 0x1600, 0x7030, 0x13);
        pdo_entry_field(&mut s, 8, 0x1600, 0x7030, 0x21);
        pdo_entry_field(&mut s, 8, 0x1600, 0x7030, 0x22);
        pdo_entry_field(&mut s, 8, 0x1600, 0x7030, 0x23);
        pdo_entry_field(&mut s, 8, 0x1600, 0x7030, 0x24);
        pdo_list(&mut s, 2, SyncDirection::Output, vec![0x1600, 0x1610, 0x1620, 0x1630]);
        pdo_list(&mut s, 3, SyncDirection::Input, vec![0x1A00, 0x1A10, 0x1A20, 0x1A30]);
        proof {
            reveal_strlit("EL2574");
            assert(name_ok(s.name@));
            assert(widths_ok(s.fields@));
        }
        s
    }
}

#[allow(non_camel_case_types)]
#[derive(Clone, Copy, Default, Debug)]
pub struct EL2574_Extended {
    pub ch1_status: u16,
    pub ch1_control: u8,
    pub ch1_index: u8,
    pub ch1_el0: u32,
    pub ch1_el1: u32,
    pub ch1_el2: u32,
    pub ch1_el3: u32,
    pub ch1_el4: u32,
    pub ch1_el5: u32,
    pub ch1_el6: u32,
    pub ch1_el7: u32,
}

impl EL2574_Extended {
    pub fn schema() -> (s: DeviceSchema)
        ensures
            schema_ok(s),
    {
        let mut s = base_schema("EL2574_Extended");
        pdo_entry_field(&mut s, 16, 0x1A00, 0x6000, 1);
        pdo_entry_field(&mut s, 8, 0x1601, 0x7001, 1);
        pdo_entry_field(&mut s, 8, 0x1601, 0x7001, 9);
        pdo_entry_field(&mut s, 32, 0x1601, 0x7001, 0x11);
        pdo_entry_field(&mut s, 32, 0x1601, 0x7001, 0x12);
        pdo_entry_field(&mut s, 32, 0x1601, 0x7001, 0x13);
        pdo_entry_field(&mut s, 32, 0x1601, 0x7001, 0x14);
        pdo_entry_field(&mut s, 32, 0x1601, 0x7001, 0x15);
        pdo_entry_field(&mut s, 32, 0x1601, 0x7001, 0x16);
        pdo_entry_field(&mut s, 32, 0x1601, 0x7001, 0x17);
        pdo_entry_field(&mut s, 32, 0x1601, 0x7001, 0x18);
        pdo_list(&mut s, 2, SyncDirection::Output, vec![0x1601]);
        pdo_list(&mut s, 3, SyncDirection::Input, vec![0x1A00]);
        proof {
            reveal_strlit("EL2574_Extended");
            assert(name_ok(s.name@));
            assert(widths_ok(s.fields@));
        }
        s
    }
}

#[derive(Clone, Copy, Default, Debug)]
pub struct EL2612 {
    pub output: u8,
}

impl EL2612 {
    pub fn schema() -> (s: DeviceSchema)
        ensures
            schema_ok(s),
    {
        let mut s = base_schema("EL2612");
        entry_field(&mut s, 8, 0x7000, 1);
        proof {
            reveal_strlit("EL2612");
            assert(name_ok(s.name@));
            assert(widths_ok(s.fields@));
        }
        s
    }
}

#[derive(Clone, Copy, Default, Debug)]
pub struct EL2622 {
    pub output: u8,
}

impl EL2622 {
    pub fn schema() -> (s: DeviceSchema)
        ensures
            schema_ok(s),
    {
        let mut s = base_schema("EL2622");
        entry_field(&mut s, 8, 0x7000, 1);
        proof {
            reveal_strlit("EL2622");
            assert(name_ok(s.name@));
            assert(widths_ok(s.fields@));
        }
        s
    }
}

#[derive(Clone, Copy, Default, Debug)]
pub struct EL2624 {
    pub output: u8,
}

impl EL2624 {
    pub fn schema() -> (s: DeviceSchema)
        ensures
            schema_ok(s),
    {
        let mut s = base_schema("EL2624");
        entry_field(&mut s, 8, 0x7000, 1);
        proof {
            reveal_strlit("EL2624");
            assert(name_ok(s.name@));
            assert(widths_ok(s.fields@));
        }
        s
    }
}

#[derive(Clone, Copy, Default, Debug)]
pub struct EL3104 {
    pub ch1_status: u16,
    pub ch1: i16,
    pub ch2_status: u16,
    pub ch2: i16,
    pub ch3_status: u16,
    pub ch3: i16,
    pub ch4_status: u16,
    pub ch4: i16,
}

impl EL3104 {
    pub fn schema() -> (s: DeviceSchema)
        ensures
            schema_ok(s),
    {
        let mut s = base_schema("EL3104");
        entry_field(&mut s, 16, 0x6000, 1);
        entry_field(&mut s, 16, 0x6000, 17);
        entry_field(&mut s, 16, 0x6010, 1);
        entry_field(&mut s, 16, 0x6010, 17);
        entry_field(&mut s, 16, 0x6020, 1);
        entry_field(&mut s, 16, 0x6020, 17);
        entry_field(&mut s, 16, 0x6030, 1);
        entry_field(&mut s, 16, 0x6030, 17);
        proof {
            reveal_strlit("EL3104");
            assert(name_ok(s.name@));
            assert(widths_ok(s.fields@));
        }
        s
    }
}

#[derive(Clone, Copy, Default, Debug)]
pub struct EL3152 {
    pub ch1_status: u16,
    pub ch1: i16,
    pub ch2_status: u16,
    pub ch2: i16,
}

impl EL3152 {
    pub fn schema() -> (s: DeviceSchema)
        ensures
            schema_ok(s),
    {
        let mut s = base_schema("EL3152");
        pdo_entry_field(&mut s, 16, 0x1A02, 0x6000, 1);
        pdo_entry_field(&mut s, 16, 0x1A02, 0x6000, 17);
        pdo_entry_field(&mut s, 16, 0x1A04, 0x6010, 1);
        pdo_entry_field(&mut s, 16, 0x1A04, 0x6010, 17);
        pdo_list(&mut s, 3, SyncDirection::Input, vec![0x1A02, 0x1A04]);
        proof {
            reveal_strlit("EL3152");
            assert(name_ok(s.name@));
            assert(widths_ok(s.fields@));
        }
        s
    }
}

#[derive(Clone, Copy, Default, Debug)]
pub struct EL4132 {
    pub ch1: i16,
    pub ch2: i16,
}

impl EL4132 {
    pub fn schema() -> (s: DeviceSchema)
        ensures
            schema_ok(s),
    {
        let mut s = base_schema("EL4132");
        entry_field(&mut s, 16, 0x3001, 1);
        entry_field(&mut s, 16, 0x3002, 1);
        proof {
            reveal_strlit("EL4132");
            assert(name_ok(s.name@));
            assert(widths_ok(s.fields@));
        }
        s
    }
}

#[derive(Clone, Copy, Default, Debug)]
pub struct EL5001 {
    pub status_ch1: u8,
    pub value_ch1: u32,
}

impl EL5001 {
    pub fn schema() -> (s: DeviceSchema)
        ensures
            schema_ok(s),
    {
        let mut s = base_schema("EL5001");
        entry_field(&mut s, 8, 0x3101, 1);
        entry_field(&mut s, 32, 0x3101, 2);
        proof {
            reveal_strlit("EL5001");
            assert(name_ok(s.name@));
            assert(widths_ok(s.fields@));
        }
        s
    }
}

#[derive(Clone, Copy, Default, Debug)]
pub struct EL5002 {
    pub status_ch1: u16,
    pub value_ch1: u32,
    pub status_ch2: u16,
    pub value_ch2: u32,
}

impl EL5002 {
    pub fn schema() -> (s: DeviceSchema)
        ensures
            schema_ok(s),
    {
        let mut s = base_schema("EL5002");
        pdo_entry_field(&mut s, 16, 0x1A00, 0x6000, 1);
        pdo_entry_field(&mut s, 32, 0x1A00, 0x6000, 11);
        pdo_entry_field(&mut s, 16, 0x1A01, 0x6010, 1);
        pdo_entry_field(&mut s, 32, 0x1A01, 0x6010, 11);
        pdo_list(&mut s, 3, SyncDirection::Input, vec![0x1A00, 0x1A01]);
        proof {
            reveal_strlit("EL5002");
            assert(name_ok(s.name@));
            assert(widths_ok(s.fields@));
        }
        s
    }
}

#[derive(Clone, Copy, Default, Debug)]
pub struct EL5032 {
    pub status_ch1: u16,
    pub value_ch1: u64,
    pub status_ch2: u16,
    pub value_ch2: u64,
}

impl EL5032 {
    pub fn schema() -> (s: DeviceSchema)
        ensures
            schema_ok(s),
    {
        let mut s = base_schema("EL5032");
        pdo_entry_field(&mut s, 16, 0x1A00, 0x6000, 1);
        pdo_entry_field(&mut s, 64, 0x1A00, 0x6000, 11);
        pdo_entry_field(&mut s, 16, 0x1A01, 0x6010, 1);
        pdo_entry_field(&mut s, 64, 0x1A01, 0x6010, 11);
        pdo_list(&mut s, 3, SyncDirection::Input, vec![0x1A00, 0x1A01]);
        with_watchdog(&mut s, 1, 1);
        proof {
            reveal_strlit("EL5032");
            assert(name_ok(s.name@));
            assert(widths_ok(s.fields@));
        }
        s
    }
}

#[derive(Clone, Copy, Default, Debug)]
pub struct EL5072 {
    pub status_ch1: u16,
    pub value_ch1: i32,
    pub latch_ch1: i32,
    pub status_ch2: u16,
    pub value_ch2: i32,
    pub latch_ch2: i32,
    pub control_ch1: u32,
    pub set_counter_ch1: u32,
    pub control_ch2: u32,
    pub set_counter_ch2: u32,
}

impl EL5072 {
    pub fn schema() -> (s: DeviceSchema)
        ensures
            schema_ok(s),
    {
        let mut s = base_schema("EL5072");
        pdo_entry_field(&mut s, 16, 0x1A00, 0x6000, 1);
        pdo_entry_field(&mut s, 32, 0x1A00, 0x6001, 1);
        pdo_entry_field(&mut s, 32, 0x1A00, 0x6001, 2);
        pdo_entry_field(&mut s, 16, 0x1A02, 0x6010, 1);
        pdo_entry_field(&mut s, 32, 0x1A02, 0x6011, 1);
        pdo_entry_field(&mut s, 32, 0x1A02, 0x6011, 2);
        pdo_entry_field(&mut s, 32, 0x1600, 0x7000, 1);
        pdo_entry_field(&mut s, 32, 0x1600, 0x7000, 0x11);
        pdo_entry_field(&mut s, 32, 0x1601, 0x7010, 1);
        pdo_entry_field(&mut s, 32, 0x1601, 0x7010, 0x11);
        pdo_list(&mut s, 3, SyncDirection::Input, vec![0x1A00, 0x1A02]);
        pdo_list(&mut s, 2, SyncDirection::Output, vec![0x1600, 0x1601]);
        proof {
            reveal_strlit("EL5072");
            assert(name_ok(s.name@));
            assert(widths_ok(s.fields@));
        }
        s
    }
}

#[allow(non_camel_case_types)]
#[derive(Clone, Copy, Default, Debug)]
pub struct EL7031_Velocity {
    pub enc_status: u16,
    pub enc_counter: u32,
    pub enc_latch: u32,
    pub mot_status: u16,
    pub info_data1: u16,
    pub info_data2: u16,
    pub mot_position: i32,
    pub enc_control: u16,
    pub enc_set_counter: u32,
    pub mot_control: u16,
    pub mot_velocity: i16,
}

impl EL7031_Velocity {
    pub fn schema() -> (s: DeviceSchema)
        ensures
            schema_ok(s),
    {
        let mut s = base_schema("EL7031_Velocity");
        pdo_entry_field(&mut s, 16, 0x1A01, 0x6000, 1);
        pdo_entry_field(&mut s, 32, 0x1A01, 0x6000, 0x11);
        pdo_entry_field(&mut s, 32, 0x1A01, 0x6000, 0x12);
        pdo_entry_field(&mut s, 16, 0x1A03, 0x6010, 1);
        pdo_entry_field(&mut s, 16, 0x1A04, 0x6010, 0x11);
        pdo_entry_field(&mut s, 16, 0x1A04, 0x6010, 0x12);
        pdo_entry_field(&mut s, 32, 0x1A08, 0x6010, 0x14);
        pdo_entry_field(&mut s, 16, 0x1601, 0x7000, 1);
        pdo_entry_field(&mut s, 32, 0x1601, 0x7000, 0x11);
        pdo_entry_field(&mut s, 16, 0x1602, 0x7010, 1);
        pdo_entry_field(&mut s, 16, 0x1604, 0x7010, 0x21);
        pdo_list(&mut s, 3, SyncDirection::Input, vec![0x1A01, 0x1A03, 0x1A04, 0x1A08]);
        pdo_list(&mut s, 2, SyncDirection::Output, vec![0x1601, 0x1602, 0x1604]);
        proof {
            reveal_strlit("EL7031_Velocity");
            assert(name_ok(s.name@));
            assert(widths_ok(s.fields@));
        }
        s
    }
}

#[allow(non_camel_case_types)]
#[derive(Clone, Copy, Default, Debug)]
pub struct EL7041_Velocity {
    pub enc_status: u16,
    pub enc_counter: u32,
    pub enc_latch: u32,
    pub mot_status: u16,
    pub info_data1: u16,
    pub info_data2: u16,
    pub mot_position: i32,
    pub enc_control: u16,
    pub enc_set_counter: u32,
    pub mot_control: u16,
    pub mot_velocity: i16,
}

impl EL7041_Velocity {
    pub fn schema() -> (s: DeviceSchema)
        ensures
            schema_ok(s),
    {
        let mut s = base_schema("EL7041_Velocity");
        pdo_entry_field(&mut s, 16, 0x1A01, 0x6000, 1);
        pdo_entry_field(&mut s, 32, 0x1A01, 0x6000, 0x11);
        pdo_entry_field(&mut s, 32, 0x1A01, 0x6000, 0x12);
        pdo_entry_field(&mut s, 16, 0x1A03, 0x6010, 1);
        pdo_entry_field(&mut s, 16, 0x1A04, 0x6010, 0x11);
        pdo_entry_field(&mut s, 16, 0x1A04, 0x6010, 0x12);
        pdo_entry_field(&mut s, 32, 0x1A07, 0x6010, 0x14);
        pdo_entry_field(&mut s, 16, 0x1601, 0x7000, 1);
        pdo_entry_field(&mut s, 32, 0x1601, 0x7000, 0x11);
        pdo_entry_field(&mut s, 16, 0x1602, 0x7010, 1);
        pdo_entry_field(&mut s, 16, 0x1604, 0x7010, 0x21);
        pdo_list(&mut s, 3, SyncDirection::Input, vec![0x1A01, 0x1A03, 0x1A04, 0x1A07]);
        pdo_list(&mut s, 2, SyncDirection::Output, vec![0x1601, 0x1602, 0x1604]);
        proof {
            reveal_strlit("EL7041_Velocity");
            assert(name_ok(s.name@));
            assert(widths_ok(s.fields@));
        }
        s
    }
}

#[allow(non_camel_case_types)]
#[derive(Clone, Copy, Default, Debug)]
pub struct EL7047_Velocity {
    pub enc_status: u16,
    pub enc_counter: u32,
    pub enc_latch: u32,
    pub mot_status: u16,
    pub info_data1: u16,
    pub info_data2: u16,
    pub mot_position: i32,
    pub enc_control: u16,
    pub enc_set_counter: u32,
    pub mot_control: u16,
    pub mot_velocity: i16,
}

impl EL7047_Velocity {
    pub fn schema() -> (s: DeviceSchema)
        ensures
            schema_ok(s),
    {
        let mut s = base_schema("EL7047_Velocity");
        pdo_entry_field(&mut s, 16, 0x1A01, 0x6000, 1);
        pdo_entry_field(&mut s, 32, 0x1A01, 0x6000, 0x11);
        pdo_entry_field(&mut s, 32, 0x1A01, 0x6000, 0x12);
        pdo_entry_field(&mut s, 16, 0x1A03, 0x6010, 1);
        pdo_entry_field(&mut s, 16, 0x1A04, 0x6010, 0x11);
        pdo_entry_field(&mut s, 16, 0x1A04, 0x6010, 0x12);
        pdo_entry_field(&mut s, 32, 0x1A08, 0x6010, 0x14);
        pdo_entry_field(&mut s, 16, 0x1601, 0x7000, 1);
        pdo_entry_field(&mut s, 32, 0x1601, 0x7000, 0x11);
        pdo_entry_field(&mut s, 16, 0x1602, 0x7010, 1);
        pdo_entry_field(&mut s, 16, 0x1604, 0x7010, 0x21);
        pdo_list(&mut s, 3, SyncDirection::Input, vec![0x1A01, 0x1A03, 0x1A04, 0x1A08]);
        pdo_list(&mut s, 2, SyncDirection::Output, vec![0x1601, 0x1602, 0x1604]);
        proof {
            reveal_strlit("EL7047_Velocity");
            assert(name_ok(s.name@));
            assert(widths_ok(s.fields@));
        }
        s
    }
}

#[allow(non_camel_case_types)]
#[derive(Clone, Copy, Default, Debug)]
pub struct EL7047_Position {
    pub enc_status: u16,
    pub enc_counter: u32,
    pub enc_latch: u32,
    pub mot_status: u16,
    pub info_data1: u16,
    pub info_data2: u16,
    pub mot_position: i32,
    pub enc_control: u16,
    pub enc_set_counter: u32,
    pub mot_control: u16,
    pub mot_target: i32,
}

impl EL7047_Position {
    pub fn schema() -> (s: DeviceSchema)
        ensures
            schema_ok(s),
    {
        let mut s = base_schema("EL7047_Position");
        pdo_entry_field(&mut s, 16, 0x1A01, 0x6000, 1);
        pdo_entry_field(&mut s, 32, 0x1A01, 0x6000, 11);
        pdo_entry_field(&mut s, 32, 0x1A01, 0x6000, 12);
        pdo_entry_field(&mut s, 16, 0x1A03, 0x6010, 1);
        pdo_entry_field(&mut s, 16, 0x1A04, 0x6010, 11);
        pdo_entry_field(&mut s, 16, 0x1A04, 0x6010, 12);
        pdo_entry_field(&mut s, 32, 0x1A08, 0x6010, 14);
        pdo_entry_field(&mut s, 16, 0x1601, 0x7000, 1);
        pdo_entry_field(&mut s, 32, 0x1601, 0x7000, 11);
        pdo_entry_field(&mut s, 16, 0x1602, 0x7010, 1);
        pdo_entry_field(&mut s, 32, 0x1603, 0x7010, 11);
        pdo_list(&mut s, 3, SyncDirection::Input, vec![0x1A01, 0x1A03, 0x1A04, 0x1A08]);
        pdo_list(&mut s, 2, SyncDirection::Output, vec![0x1601, 0x1602, 0x1603]);
        proof {
            reveal_strlit("EL7047_Position");
            assert(name_ok(s.name@));
            assert(widths_ok(s.fields@));
        }
        s
    }
}

#[allow(non_camel_case_types)]
#[derive(Clone, Copy, Default, Debug)]
pub struct EL7047_Positioning {
    pub enc_status: u16,
    pub enc_counter: u32,
    pub enc_latch: u32,
    pub mot_status: u16,
    pub pos_status: u16,
    pub act_pos: i32,
    pub act_velo: u16,
    pub drv_time: u32,
    pub enc_control: u16,
    pub enc_set_counter: u32,
    pub mot_control: u16,
    pub pos_control: u16,
    pub target_pos: u32,
    pub target_velo: u16,
    pub start_type: u16,
    pub accel: u16,
    pub decel: u16,
}

impl EL7047_Positioning {
    pub fn schema() -> (s: DeviceSchema)
        ensures
            schema_ok(s),
    {
        let mut s = base_schema("EL7047_Positioning");
        pdo_entry_field(&mut s, 16, 0x1A01, 0x6000, 1);
        pdo_entry_field(&mut s, 32, 0x1A01, 0x6000, 11);
        pdo_entry_field(&mut s, 32, 0x1A01, 0x6000, 12);
        pdo_entry_field(&mut s, 16, 0x1A03, 0x6010, 1);
        pdo_entry_field(&mut s, 16, 0x1A07, 0x6020, 1);
        pdo_entry_field(&mut s, 32, 0x1A07, 0x6020, 11);
        pdo_entry_field(&mut s, 16, 0x1A07, 0x6020, 21);
        pdo_entry_field(&mut s, 32, 0x1A07, 0x6020, 22);
        pdo_entry_field(&mut s, 16, 0x1601, 0x7000, 1);
        pdo_entry_field(&mut s, 32, 0x1601, 0x7000, 11);
        pdo_entry_field(&mut s, 16, 0x1602, 0x7010, 1);
        pdo_entry_field(&mut s, 16, 0x1606, 0x7020, 1);
        pdo_entry_field(&mut s, 32, 0x1606, 0x7020, 11);
        pdo_entry_field(&mut s, 16, 0x1606, 0x7020, 21);
        pdo_entry_field(&mut s, 16, 0x1606, 0x7020, 22);
        pdo_entry_field(&mut s, 16, 0x1606, 0x7020, 23);
        pdo_entry_field(&mut s, 16, 0x1606, 0x7020, 24);
        pdo_list(&mut s, 3, SyncDirection::Input, vec![0x1A01, 0x1A03, 0x1A07]);
        pdo_list(&mut s, 2, SyncDirection::Output, vec![0x1601, 0x1602, 0x1606]);
        proof {
            reveal_strlit("EL7047_Positioning");
            assert(name_ok(s.name@));
            assert(widths_ok(s.fields@));
        }
        s
    }
}

#[allow(non_camel_case_types)]
#[derive(Clone, Copy, Default, Debug)]
pub struct EL7211_0010_Velocity {
    pub act_pos: u32,
    pub mot_status: u16,
    pub act_velo: i32,
    pub act_torq: i16,
    pub info_data1: u16,
    pub info_data2: u16,
    pub drag_error: i32,
    pub mot_curr_mode: u8,
    pub mot_control: u16,
    pub target_velo: i32,
    pub mot_mode: u8,
}

impl EL7211_0010_Velocity {
    pub fn schema() -> (s: DeviceSchema)
        ensures
            schema_ok(s),
    {
        let mut s = base_schema("EL7211_0010_Velocity");
        pdo_entry_field(&mut s, 32, 0x1A00, 0x6000, 0x11);
        pdo_entry_field(&mut s, 16, 0x1A01, 0x6010, 1);
        pdo_entry_field(&mut s, 32, 0x1A02, 0x6010, 7);
        pdo_entry_field(&mut s, 16, 0x1A03, 0x6010, 8);
        pdo_entry_field(&mut s, 16, 0x1A04, 0x6010, 0x12);
        pdo_entry_field(&mut s, 16, 0x1A05, 0x6010, 0x13);
        pdo_entry_field(&mut s, 32, 0x1A06, 0x6010, 6);
        pdo_entry_field(&mut s, 8, 0x1A0E, 0x6010, 3);
        pdo_entry_field(&mut s, 16, 0x1600, 0x7010, 1);
        pdo_entry_field(&mut s, 32, 0x1601, 0x7010, 6);
        pdo_entry_field(&mut s, 8, 0x1608, 0x7010, 3);
        pdo_list(&mut s, 3, SyncDirection::Input, vec![0x1A00, 0x1A01, 0x1A02, 0x1A03, 0x1A04, 0x1A05, 0x1A06, 0x1A0E]);
        pdo_list(&mut s, 2, SyncDirection::Output, vec![0x1600, 0x1601, 0x1608]);
        with_dc(&mut s, 0x700, 2000000, 30000, 2000000, 1000);
        proof {
            reveal_strlit("EL7211_0010_Velocity");
            assert(name_ok(s.name@));
            assert(widths_ok(s.fields@));
        }
        s
    }
}

#[allow(non_camel_case_types)]
#[derive(Clone, Copy, Default, Debug)]
pub struct EL7221_9014_Velocity {
    pub act_pos: u32,
    pub mot_status: u16,
    pub act_velo: i32,
    pub info_data1: u16,
    pub info_data2: u16,
    pub drag_error: i32,
    pub act_torq: i16,
    pub mot_curr_mode: u8,
    pub mot_control: u16,
    pub target_velo: i32,
    pub mot_mode: u8,
}

impl EL7221_9014_Velocity {
    pub fn schema() -> (s: DeviceSchema)
        ensures
            schema_ok(s),
    {
        let mut s = base_schema("EL7221_9014_Velocity");
        pdo_entry_field(&mut s, 32, 0x1A00, 0x6000, 0x11);
        pdo_entry_field(&mut s, 16, 0x1A01, 0x6010, 1);
        pdo_entry_field(&mut s, 32, 0x1A02, 0x6010, 7);
        pdo_entry_field(&mut s, 16, 0x1A04, 0x6010, 0x12);
        pdo_entry_field(&mut s, 16, 0x1A05, 0x6010, 0x13);
        pdo_entry_field(&mut s, 32, 0x1A06, 0x6010, 6);
        pdo_entry_field(&mut s, 16, 0x1A07, 0x6010, 8);
        pdo_entry_field(&mut s, 8, 0x1A0E, 0x6010, 3);
        pdo_entry_field(&mut s, 16, 0x1600, 0x7010, 1);
        pdo_entry_field(&mut s, 32, 0x1601, 0x7010, 6);
        pdo_entry_field(&mut s, 8, 0x1608, 0x7010, 3);
        pdo_list(&mut s, 3, SyncDirection::Input, vec![0x1A00, 0x1A01, 0x1A02, 0x1A04, 0x1A05, 0x1A06, 0x1A07, 0x1A0E]);
        pdo_list(&mut s, 2, SyncDirection::Output, vec![0x1600, 0x1601, 0x1608]);
        with_dc(&mut s, 0x700, 2000000, 30000, 2000000, 1000);
        proof {
            reveal_strlit("EL7221_9014_Velocity");
            assert(name_ok(s.name@));
            assert(widths_ok(s.fields@));
        }
        s
    }
}

#[derive(Clone, Copy, Default, Debug)]
pub struct EL9505 {}

impl EL9505 {
    pub fn schema() -> (s: DeviceSchema)
        ensures
            schema_ok(s),
    {
        let mut s = base_schema("EL9505");
        proof {
            reveal_strlit("EL9505");
            assert(name_ok(s.name@));
            assert(widths_ok(s.fields@));
        }
        s
    }
}

} // verus!
