//! The data model of the process-image descriptor: device identities, PDO
//! entries and their offsets, sync-manager groupings, SDO assignments and the
//! per-device configuration plan.

use vstd::prelude::*;

verus! {

/// Identifies one slave hardware type on the bus.
#[derive(Clone, Copy, PartialEq, Eq, Structural, Debug)]
pub struct SlaveId {
    pub vendor_id: u32,
    pub product_code: u32,
}

/// Addresses one object-dictionary entry.
#[derive(Clone, Copy, PartialEq, Eq, Structural, Debug)]
pub struct PdoEntryIdx {
    pub idx: u16,
    pub sub_idx: u8,
}

/// A position within the shared process image. Registered entries only
/// support `bit == 0`.
#[derive(Clone, Copy, PartialEq, Eq, Structural, Debug)]
pub struct Offset {
    pub byte: usize,
    pub bit: u32,
}

/// Transfer direction of a sync manager.
#[derive(Clone, Copy, PartialEq, Eq, Structural, Debug)]
pub enum SyncDirection {
    Output,
    Input,
}

/// Device-side watchdog behaviour of a sync manager.
#[derive(Clone, Copy, PartialEq, Eq, Structural, Debug)]
pub enum WatchdogMode {
    Default,
    Enable,
    Disable,
}

/// Groups PDOs for one transfer direction.
#[derive(Clone, Copy, PartialEq, Eq, Structural, Debug)]
pub struct SmCfg {
    pub idx: u8,
    pub direction: SyncDirection,
    pub watchdog_mode: WatchdogMode,
}

/// One entry of a PDO mapping.
#[derive(Clone, PartialEq, Eq, Debug)]
pub struct PdoEntryInfo {
    pub entry_idx: PdoEntryIdx,
    pub bit_len: u8,
    pub name: String,
    pub pos: usize,
}

/// One PDO with its ordered entry list.
#[derive(Clone, PartialEq, Eq, Debug)]
pub struct PdoCfg {
    pub idx: u16,
    pub entries: Vec<PdoEntryInfo>,
}

/// Addresses one SDO.
#[derive(Clone, Copy, PartialEq, Eq, Structural, Debug)]
pub struct SdoIdx {
    pub idx: u16,
    pub sub_idx: u8,
}

/// A concrete SDO value.
#[derive(Clone, Copy, PartialEq, Eq, Structural, Debug)]
pub enum SdoValue {
    U8(u8),
    U16(u16),
    U32(u32),
    U64(u64),
    I8(i8),
    I16(i16),
    I32(i32),
    I64(i64),
}

/// An SDO value as written in a schema: either a literal, or a named
/// placeholder resolved from a runtime configuration source.
#[derive(Clone, PartialEq, Eq, Debug)]
pub enum SdoSource {
    Literal(SdoValue),
    Var(String),
}

/// One SDO assignment of a device schema.
#[derive(Clone, PartialEq, Eq, Debug)]
pub struct SdoAssign {
    pub idx: SdoIdx,
    pub value: SdoSource,
}

/// Watchdog settings of one device.
#[derive(Clone, Copy, PartialEq, Eq, Structural, Debug)]
pub struct WatchdogCfg {
    pub divider: u16,
    pub intervals: u16,
}

/// Distributed-clock settings of one device.
#[derive(Clone, Copy, PartialEq, Eq, Structural, Debug)]
pub struct DcCfg {
    pub assign_activate: u16,
    pub cycle_time0: u32,
    pub shift_time0: i32,
    pub cycle_time1: u32,
    pub shift_time1: i32,
}

/// An "entry" annotation of one schema field: the object-dictionary entry
/// behind the field, and optionally the PDO the entry is mapped through.
#[derive(Clone, Copy, PartialEq, Eq, Structural, Debug)]
pub struct EntrySchema {
    pub pdo: Option<u16>,
    pub idx: u16,
    pub sub_idx: u8,
}

/// One field of a device schema, in declaration order: the declared numeric
/// width in bits, and an optional entry annotation.
#[derive(Clone, Copy, PartialEq, Eq, Structural, Debug)]
pub struct FieldSchema {
    pub bit_width: u32,
    pub entry: Option<EntrySchema>,
}

/// A device-level "pdos" annotation: one sync manager with the PDOs assigned
/// to it.
#[derive(Clone, PartialEq, Eq, Debug)]
pub struct PdoListSchema {
    pub sm: u8,
    pub direction: SyncDirection,
    pub pdo_idxs: Vec<u16>,
}

/// The declarative schema of one device type: the compiler's input.
#[derive(Clone, Debug)]
pub struct DeviceSchema {
    /// Type name following the two-letter-family + 4-digit-number convention,
    /// used to infer the identity unless `id_override` is given.
    pub name: String,
    pub id_override: Option<SlaveId>,
    pub fields: Vec<FieldSchema>,
    pub pdos: Vec<PdoListSchema>,
    pub watchdog: Option<WatchdogCfg>,
    pub dc: Option<DcCfg>,
}

/// The compiled configuration plan of one slave device.
#[derive(Clone, Debug)]
pub struct SlavePlan {
    pub id: SlaveId,
    pub pdos: Option<Vec<(SmCfg, Vec<PdoCfg>)>>,
    pub regs: Vec<(PdoEntryIdx, Offset)>,
    pub sdos: Vec<SdoAssign>,
    pub watchdog: Option<WatchdogCfg>,
    pub dc: Option<DcCfg>,
    pub byte_size: usize,
}

/// A full process image: the ordered per-device configuration plans.
#[derive(Clone, Debug)]
pub struct ProcessImageDescriptor {
    pub slaves: Vec<SlavePlan>,
}

/// Everything that can go wrong while compiling a schema, resolving SDO
/// placeholders, or checking the layout the bus master reports. Any of these
/// aborts bring-up; none can occur in steady state.
#[derive(Clone, PartialEq, Eq, Debug)]
pub enum ConfigError {
    /// The device name fits no known naming convention and no explicit
    /// identity was given.
    UnknownIdentity,
    /// A field declares a numeric width other than 8, 16, 32 or 64 bits.
    UnsupportedWidth { field: usize },
    /// A named SDO placeholder that the runtime configuration source cannot
    /// resolve.
    UnresolvedSdoVar { name: String },
    /// The first registered entry of a device was reported off its expected
    /// byte position or with a nonzero bit offset.
    FirstEntryMisplaced { device: usize },
    /// A later registered entry was reported somewhere other than its
    /// declared local offset plus the device's starting byte.
    EntryOffsetMismatch { device: usize, entry: usize },
    /// The bus master reports a domain size other than the declared image
    /// byte size.
    SizeMismatch { reported: usize, declared: usize },
}

} // verus!
