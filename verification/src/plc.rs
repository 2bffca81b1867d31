//! The cyclic engine's decisions: the builder holding the runtime
//! configuration, the bring-up checks of the layout the bus master reports
//! against the compiled descriptor, and the tick-boundary arithmetic of the
//! steady-state loop.

use vstd::prelude::*;

use crate::compile::{
    lemma_plans_byte_size_take_bound, lemma_plans_byte_size_take_step, plans_byte_size,
};
use crate::types::{ConfigError, Offset, PdoEntryIdx, ProcessImageDescriptor};

verus! {

/// Collects the runtime configuration of one PLC before bring-up: the bus
/// master id, the cycle frequency in Hz (1000 when unset), an optional listen
/// address for the external server, and the logging setup.
pub struct PlcBuilder {
    pub name: String,
    pub master_id: Option<u32>,
    pub cycle_freq: Option<u32>,
    pub server_addr: Option<String>,
    pub logfile_base: Option<String>,
    pub debug_logging: bool,
}

impl PlcBuilder {
    pub fn new(name: &str) -> (b: Self)
        ensures
            b.name@ == name@,
            b.master_id is None,
            b.cycle_freq is None,
            b.server_addr is None,
            b.logfile_base is None,
            b.debug_logging == false,
    {
        PlcBuilder {
            name: name.to_owned(),
            master_id: None,
            cycle_freq: None,
            server_addr: None,
            logfile_base: None,
            debug_logging: false,
        }
    }

    pub fn master_id(self, id: u32) -> (b: Self)
        ensures
            b.master_id == Some(id),
            b.name == self.name,
            b.cycle_freq == self.cycle_freq,
            b.server_addr == self.server_addr,
            b.logfile_base == self.logfile_base,
            b.debug_logging == self.debug_logging,
    {
        PlcBuilder { master_id: Some(id), ..self }
    }

    pub fn cycle_freq(self, freq: u32) -> (b: Self)
        ensures
            b.cycle_freq == Some(freq),
            b.name == self.name,
            b.master_id == self.master_id,
            b.server_addr == self.server_addr,
            b.logfile_base == self.logfile_base,
            b.debug_logging == self.debug_logging,
    {
        PlcBuilder { cycle_freq: Some(freq), ..self }
    }

    pub fn with_server(self, addr: &str) -> (b: Self)
        ensures
            b.server_addr matches Some(a) && a@ == addr@,
            b.name == self.name,
            b.master_id == self.master_id,
            b.cycle_freq == self.cycle_freq,
            b.logfile_base == self.logfile_base,
            b.debug_logging == self.debug_logging,
    {
        PlcBuilder { server_addr: Some(addr.to_owned()), ..self }
    }

    pub fn logging_cfg(self, logfile_base: Option<String>, debug_logging: bool) -> (b: Self)
        ensures
            b.logfile_base == logfile_base,
            b.debug_logging == debug_logging,
            b.name == self.name,
            b.master_id == self.master_id,
            b.cycle_freq == self.cycle_freq,
            b.server_addr == self.server_addr,
    {
        PlcBuilder { logfile_base, debug_logging, ..self }
    }

    /// The cycle frequency the engine runs at: what was set, or 1000 Hz.
    pub fn effective_cycle_freq(&self) -> (freq: u32)
        ensures
            freq == match self.cycle_freq {
                Some(f) => f,
                None => 1000u32,
            },
    {
        match self.cycle_freq {
            Some(f) => f,
            None => 1000,
        }
    }

    /// The bus master id to open: what was set, or 0.
    pub fn effective_master_id(&self) -> (id: u32)
        ensures
            id == match self.master_id {
                Some(i) => i,
                None => 0u32,
            },
    {
        match self.master_id {
            Some(i) => i,
            None => 0,
        }
    }
}

// ---------------------------------------------------------------------------
// Tick timing
// ---------------------------------------------------------------------------

/// Length of one cycle in nanoseconds for a frequency in Hz.
pub fn cycle_period_ns(freq: u32) -> (period: u64)
    requires
        freq > 0,
    ensures
        period == 1_000_000_000u64 / freq as u64,
{
    1_000_000_000u64 / (freq as u64)
}

/// The next absolute tick boundary: the running anchor advanced by one fixed
/// period (no drift compensation beyond the anchor itself).
pub fn next_cycle_start(cycle_start: u64, period: u64) -> (next: u64)
    requires
        cycle_start + period <= u64::MAX,
    ensures
        next == cycle_start + period,
{
    cycle_start + period
}

/// How long to sleep until the boundary: nothing when it has already passed
/// (the loop then proceeds immediately, with no catch-up).
pub fn sleep_until(now: u64, boundary: u64) -> (ns: u64)
    ensures
        ns == if boundary > now {
            boundary - now
        } else {
            0int
        },
{
    if boundary > now {
        boundary - now
    } else {
        0
    }
}

// ---------------------------------------------------------------------------
// Bring-up layout checks
// ---------------------------------------------------------------------------

/// The offsets the bus master reported for one device are the ones the
/// descriptor declares: the first registered entry sits byte-aligned exactly
/// at the device's starting byte, and every later entry at its declared local
/// offset plus that starting byte.
pub open spec fn device_offsets_ok(
    reported: Seq<Offset>,
    regs: Seq<(PdoEntryIdx, Offset)>,
    start: int,
) -> bool {
    &&& (reported.len() > 0 ==> reported[0].byte == start && reported[0].bit == 0)
    &&& forall|j: int|
        1 <= j < reported.len() ==> ((#[trigger] reported[j]).byte == regs[j].1.byte + start
            && reported[j].bit == regs[j].1.bit)
}

/// Checks one device's reported offsets, naming the device on failure.
#[verifier::loop_isolation(false)]
pub fn check_device_offsets(
    device: usize,
    reported: &Vec<Offset>,
    regs: &Vec<(PdoEntryIdx, Offset)>,
    start: usize,
) -> (r: Result<(), ConfigError>)
    requires
        reported@.len() == regs@.len(),
        forall|j: int| 0 <= j < regs@.len() ==> (#[trigger] regs@[j]).1.byte + start <= usize::MAX,
    ensures
        r is Ok <==> device_offsets_ok(reported@, regs@, start as int),
        r matches Err(e) ==> {
            &&& (e matches ConfigError::FirstEntryMisplaced { device: d } ==> d == device
                && reported@.len() > 0 && !(reported@[0].byte == start && reported@[0].bit == 0))
            &&& (e matches ConfigError::EntryOffsetMismatch { device: d, entry: j } ==> d == device
                && 1 <= j < reported@.len() && !(reported@[j as int].byte == regs@[j as int].1.byte
                + start && reported@[j as int].bit == regs@[j as int].1.bit))
            &&& (e is FirstEntryMisplaced || e is EntryOffsetMismatch)
        },
{
    let n = reported.len();
    if n == 0 {
        return Ok(());
    }
    if reported[0].byte != start || reported[0].bit != 0 {
        return Err(ConfigError::FirstEntryMisplaced { device });
    }
    let mut j: usize = 1;
    while j < n
        invariant
            1 <= j <= n,
            forall|k: int|
                1 <= k < j ==> ((#[trigger] reported@[k]).byte == regs@[k].1.byte + start
                    && reported@[k].bit == regs@[k].1.bit),
        decreases n - j,
    {
        let expected_byte = regs[j].1.byte + start;
        if reported[j].byte != expected_byte || reported[j].bit != regs[j].1.bit {
            return Err(ConfigError::EntryOffsetMismatch { device, entry: j });
        }
        j = j + 1;
    }
    Ok(())
}

/// Where device `i` starts in the image: the sum of the byte sizes of the
/// devices before it.
pub open spec fn device_start(d: ProcessImageDescriptor, i: int) -> int {
    plans_byte_size(d.slaves@.take(i))
}

/// The whole reported layout is the declared one: every device's entries sit
/// at their accumulated positions, and the domain is exactly as large as the
/// declared image.
pub open spec fn layout_ok(
    d: ProcessImageDescriptor,
    reported: Seq<Seq<Offset>>,
    domain_size: int,
) -> bool {
    &&& forall|i: int|
        0 <= i < d.slaves@.len() ==> device_offsets_ok(
            #[trigger] reported[i],
            d.slaves@[i].regs@,
            device_start(d, i),
        )
    &&& domain_size == plans_byte_size(d.slaves@)
}

/// Checks every device's reported offsets against the descriptor, in
/// descriptor order with accumulated starting bytes, then the domain size
/// against the declared image byte size. Fails fast, naming the first
/// offending device, or the size pair.
#[verifier::loop_isolation(false)]
pub fn verify_layout(
    d: &ProcessImageDescriptor,
    reported: &Vec<Vec<Offset>>,
    domain_size: usize,
) -> (r: Result<(), ConfigError>)
    requires
        reported@.len() == d.slaves@.len(),
        forall|i: int|
            0 <= i < d.slaves@.len() ==> (#[trigger] reported@[i])@.len()
                == d.slaves@[i].regs@.len(),
        plans_byte_size(d.slaves@) <= usize::MAX,
        forall|i: int, j: int|
            0 <= i < d.slaves@.len() && 0 <= j < d.slaves@[i].regs@.len() ==> device_start(*d, i)
                + (#[trigger] d.slaves@[i].regs@[j]).1.byte <= usize::MAX,
    ensures
        r is Ok <==> layout_ok(*d, reported@.map_values(|v: Vec<Offset>| v@), domain_size as int),
        r matches Err(e) ==> {
            &&& (e matches ConfigError::FirstEntryMisplaced { device } ==> device
                < d.slaves@.len())
            &&& (e matches ConfigError::EntryOffsetMismatch { device, entry } ==> device
                < d.slaves@.len())
            &&& (e matches ConfigError::SizeMismatch { reported: rep, declared } ==> rep
                == domain_size && declared == plans_byte_size(d.slaves@) && domain_size
                != plans_byte_size(d.slaves@))
            &&& (e is FirstEntryMisplaced || e is EntryOffsetMismatch || e is SizeMismatch)
        },
{
    let ghost rview = reported@.map_values(|v: Vec<Offset>| v@);
    let n = d.slaves.len();
    let mut start: usize = 0;
    let mut i: usize = 0;
    while i < n
        invariant
            0 <= i <= n,
            start == device_start(*d, i as int),
            forall|k: int|
                0 <= k < i ==> device_offsets_ok(
                    #[trigger] rview[k],
                    d.slaves@[k].regs@,
                    device_start(*d, k),
                ),
        decreases n - i,
    {
        proof {
            lemma_plans_byte_size_take_step(d.slaves@, i as int);
            lemma_plans_byte_size_take_bound(d.slaves@, i as int + 1);
            assert(rview[i as int] == reported@[i as int]@);
        }
        match check_device_offsets(i, &reported[i], &d.slaves[i].regs, start) {
            Ok(()) => {},
            Err(e) => {
                return Err(e);
            },
        }
        start = start + d.slaves[i].byte_size;
        i = i + 1;
    }
    proof {
        assert(d.slaves@.take(n as int) =~= d.slaves@);
    }
    if domain_size != start {
        return Err(ConfigError::SizeMismatch { reported: domain_size, declared: start });
    }
    Ok(())
}

} // verus!
