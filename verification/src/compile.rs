//! The descriptor compiler: a pure transform from a declarative device
//! schema (ordered fields with optional entry annotations, device-level PDO
//! lists, watchdog and distributed-clock annotations) to the configuration
//! plan of one slave, plus composition and repetition of compiled plans.

use vstd::prelude::*;

use crate::types::{
    ConfigError, DeviceSchema, FieldSchema, Offset, PdoCfg, PdoEntryIdx, PdoEntryInfo,
    PdoListSchema, ProcessImageDescriptor, SdoAssign, SdoSource, SlaveId, SlavePlan, SmCfg,
    WatchdogMode,
};

verus! {

// ---------------------------------------------------------------------------
// Identity inference
// ---------------------------------------------------------------------------

/// Vendor id shared by every device family of the naming convention.
pub const FAMILY_VENDOR: u32 = 2;

/// Low half of the product code of the coupler family ("EK").
pub const FAMILY_CONST_EK: u32 = 0x2c52;

/// Low half of the product code of the terminal family ("EL").
pub const FAMILY_CONST_EL: u32 = 0x3052;

pub open spec fn is_digit_char(c: char) -> bool {
    48 <= c as u32 <= 57
}

pub open spec fn digit_char_val(c: char) -> int {
    c as u32 - 48
}

/// A device type name follows the convention when it starts with a known
/// two-letter family followed by four decimal digits; anything after the
/// digits is ignored.
pub open spec fn name_ok(name: Seq<char>) -> bool {
    &&& name.len() >= 6
    &&& name[0] == 'E'
    &&& (name[1] == 'K' || name[1] == 'L')
    &&& is_digit_char(name[2])
    &&& is_digit_char(name[3])
    &&& is_digit_char(name[4])
    &&& is_digit_char(name[5])
}

pub open spec fn name_number(name: Seq<char>) -> int {
    1000 * digit_char_val(name[2]) + 100 * digit_char_val(name[3]) + 10 * digit_char_val(name[4])
        + digit_char_val(name[5])
}

/// The identity the naming convention assigns: a fixed vendor id, and the
/// 4-digit number in the upper half of the product code with the family
/// constant in the lower half.
pub open spec fn inferred_id(name: Seq<char>) -> SlaveId
    recommends
        name_ok(name),
{
    SlaveId {
        vendor_id: FAMILY_VENDOR,
        product_code: (name_number(name) * 0x10000 + if name[1] == 'K' {
            FAMILY_CONST_EK as int
        } else {
            FAMILY_CONST_EL as int
        }) as u32,
    }
}

/// Reads a device identity out of a type name following the two-letter-family
/// + 4-digit-number convention; any name outside the convention is a schema
/// error.
pub fn infer_slave_id(name: &str) -> (r: Result<SlaveId, ConfigError>)
    ensures
        name_ok(name@) <==> r is Ok,
        r matches Ok(id) ==> id == inferred_id(name@),
        r matches Err(e) ==> e == ConfigError::UnknownIdentity,
{
    let n = name.unicode_len();
    if n < 6 {
        return Err(ConfigError::UnknownIdentity);
    }
    if name.get_char(0) != 'E' {
        return Err(ConfigError::UnknownIdentity);
    }
    let fam = name.get_char(1);
    let fam_const: u32 = if fam == 'K' {
        FAMILY_CONST_EK
    } else if fam == 'L' {
        FAMILY_CONST_EL
    } else {
        return Err(ConfigError::UnknownIdentity);
    };
    let mut number: u32 = 0;
    let mut k: usize = 2;
    while k < 6
        invariant
            2 <= k <= 6,
            name@.len() >= 6,
            forall|j: int| 2 <= j < k ==> is_digit_char(name@[j]),
            number == digits_value(name@, k as int),
            number <= (if k == 2 {
                0int
            } else if k == 3 {
                9int
            } else if k == 4 {
                99int
            } else if k == 5 {
                999int
            } else {
                9999int
            }),
        decreases 6 - k,
    {
        let c = name.get_char(k);
        let v = c as u32;
        if v < 48 || v > 57 {
            return Err(ConfigError::UnknownIdentity);
        }
        number = number * 10 + (v - 48);
        k = k + 1;
    }
    assert(number == name_number(name@)) by {
        reveal_with_fuel(digits_value, 5);
    }
    Ok(SlaveId { vendor_id: FAMILY_VENDOR, product_code: number * 0x10000 + fam_const })
}

/// Value of the digits of `name` at positions 2 to `k` (exclusive), read
/// left to right.
pub open spec fn digits_value(name: Seq<char>, k: int) -> int
    decreases k,
{
    if k <= 2 {
        0
    } else {
        10 * digits_value(name, k - 1) + digit_char_val(name[k - 1])
    }
}

// ---------------------------------------------------------------------------
// Field layout: byte sizes, running offsets, register table
// ---------------------------------------------------------------------------

pub open spec fn width_ok(w: u32) -> bool {
    w == 8 || w == 16 || w == 32 || w == 64
}

pub open spec fn widths_ok(fields: Seq<FieldSchema>) -> bool {
    forall|i: int| 0 <= i < fields.len() ==> width_ok(#[trigger] fields[i].bit_width)
}

/// Total declared byte size: the sum of the fields' byte lengths in
/// declaration order.
pub open spec fn fields_byte_size(fields: Seq<FieldSchema>) -> int
    decreases fields.len(),
{
    if fields.len() == 0 {
        0
    } else {
        fields_byte_size(fields.drop_last()) + fields.last().bit_width as int / 8
    }
}

pub proof fn lemma_byte_size_take_step(fields: Seq<FieldSchema>, i: int)
    requires
        0 <= i < fields.len(),
    ensures
        fields_byte_size(fields.take(i + 1)) == fields_byte_size(fields.take(i))
            + fields[i].bit_width as int / 8,
{
    assert(fields.take(i + 1).drop_last() =~= fields.take(i));
    assert(fields.take(i + 1).last() == fields[i]);
}

pub proof fn lemma_byte_size_prefix(fields: Seq<FieldSchema>, i: int)
    requires
        0 <= i <= fields.len(),
    ensures
        fields_byte_size(fields.take(i)) <= fields_byte_size(fields),
    decreases fields.len() - i,
{
    if i == fields.len() {
        assert(fields.take(i) =~= fields);
    } else {
        lemma_byte_size_take_step(fields, i);
        lemma_byte_size_prefix(fields, i + 1);
    }
}

/// The register table a field list compiles to: for every field carrying an
/// entry annotation, in declaration order, the entry and the field's local
/// offset (bit offset always 0).
pub open spec fn reg_table(fields: Seq<FieldSchema>) -> Seq<(PdoEntryIdx, Offset)>
    decreases fields.len(),
{
    if fields.len() == 0 {
        Seq::empty()
    } else {
        let init = reg_table(fields.drop_last());
        match fields.last().entry {
            Some(e) => init.push(
                (
                    PdoEntryIdx { idx: e.idx, sub_idx: e.sub_idx },
                    Offset { byte: fields_byte_size(fields.drop_last()) as usize, bit: 0 },
                ),
            ),
            None => init,
        }
    }
}

pub proof fn lemma_reg_table_take_step(fields: Seq<FieldSchema>, i: int)
    requires
        0 <= i < fields.len(),
    ensures
        reg_table(fields.take(i + 1)) == if fields[i].entry is Some {
            reg_table(fields.take(i)).push(
                (
                    PdoEntryIdx {
                        idx: fields[i].entry->Some_0.idx,
                        sub_idx: fields[i].entry->Some_0.sub_idx,
                    },
                    Offset { byte: fields_byte_size(fields.take(i)) as usize, bit: 0 },
                ),
            )
        } else {
            reg_table(fields.take(i))
        },
{
    assert(fields.take(i + 1).drop_last() =~= fields.take(i));
    assert(fields.take(i + 1).last() == fields[i]);
}

// ---------------------------------------------------------------------------
// PDO grouping
// ---------------------------------------------------------------------------

/// Indices of the fields whose entry annotation names PDO `p`, in declaration
/// order.
pub open spec fn pdo_field_idxs(fields: Seq<FieldSchema>, p: u16) -> Seq<int>
    decreases fields.len(),
{
    if fields.len() == 0 {
        Seq::empty()
    } else {
        let init = pdo_field_idxs(fields.drop_last(), p);
        match fields.last().entry {
            Some(e) => if e.pdo == Some(p) {
                init.push(fields.len() - 1)
            } else {
                init
            },
            None => init,
        }
    }
}

pub proof fn lemma_pdo_field_idxs_take_step(fields: Seq<FieldSchema>, p: u16, i: int)
    requires
        0 <= i < fields.len(),
    ensures
        pdo_field_idxs(fields.take(i + 1), p) == if fields[i].entry matches Some(e) && e.pdo
            == Some(p) {
            pdo_field_idxs(fields.take(i), p).push(i)
        } else {
            pdo_field_idxs(fields.take(i), p)
        },
{
    assert(fields.take(i + 1).drop_last() =~= fields.take(i));
    assert(fields.take(i + 1).last() == fields[i]);
}

/// What one compiled PDO entry must hold for field `f` mapped through PDO
/// `p`: the annotated object-dictionary entry, the field's bit width, an
/// empty name and position 0.
pub open spec fn entry_info_matches(info: PdoEntryInfo, f: FieldSchema, p: u16) -> bool {
    &&& f.entry is Some
    &&& f.entry->Some_0.pdo == Some(p)
    &&& info.entry_idx == (PdoEntryIdx { idx: f.entry->Some_0.idx, sub_idx: f.entry->Some_0.sub_idx })
    &&& info.bit_len == f.bit_width as u8
    &&& info.name@ == Seq::<char>::empty()
    &&& info.pos == 0
}

/// The ordered entry list of PDO `p`: one entry per annotated field naming
/// `p`, in field declaration order.
pub open spec fn entries_match(entries: Seq<PdoEntryInfo>, fields: Seq<FieldSchema>, p: u16) -> bool {
    let idxs = pdo_field_idxs(fields, p);
    &&& entries.len() == idxs.len()
    &&& forall|j: int|
        0 <= j < entries.len() ==> entry_info_matches(#[trigger] entries[j], fields[idxs[j]], p)
}

pub open spec fn pdo_cfg_matches(cfg: PdoCfg, p: u16, fields: Seq<FieldSchema>) -> bool {
    &&& cfg.idx == p
    &&& entries_match(cfg.entries@, fields, p)
}

/// One sync-manager pair of the plan against its "pdos" annotation: the sync
/// manager with default watchdog mode, and each referenced PDO resolved
/// against the grouped entries (an unreferenced PDO index resolves to an
/// empty list).
pub open spec fn sm_pdos_match(
    actual: (SmCfg, Vec<PdoCfg>),
    ann: PdoListSchema,
    fields: Seq<FieldSchema>,
) -> bool {
    &&& actual.0 == (SmCfg {
        idx: ann.sm,
        direction: ann.direction,
        watchdog_mode: WatchdogMode::Default,
    })
    &&& actual.1@.len() == ann.pdo_idxs@.len()
    &&& forall|j: int|
        0 <= j < actual.1@.len() ==> pdo_cfg_matches(#[trigger] actual.1@[j], ann.pdo_idxs@[j], fields)
}

/// The whole PDO configuration of a plan: absent when the schema has no
/// "pdos" annotation, else one pair per annotation in order.
pub open spec fn pdos_match(pdos: Option<Vec<(SmCfg, Vec<PdoCfg>)>>, s: DeviceSchema) -> bool {
    if s.pdos@.len() == 0 {
        pdos is None
    } else {
        &&& pdos is Some
        &&& pdos->Some_0@.len() == s.pdos@.len()
        &&& forall|i: int|
            0 <= i < s.pdos@.len() ==> sm_pdos_match(
                #[trigger] pdos->Some_0@[i],
                s.pdos@[i],
                s.fields@,
            )
    }
}

// ---------------------------------------------------------------------------
// Whole-schema compilation
// ---------------------------------------------------------------------------

/// A schema compiles exactly when an identity can be determined and every
/// field width is a supported numeric width.
pub open spec fn schema_ok(s: DeviceSchema) -> bool {
    &&& (s.id_override is Some || name_ok(s.name@))
    &&& widths_ok(s.fields@)
}

pub open spec fn device_id(s: DeviceSchema) -> SlaveId {
    match s.id_override {
        Some(id) => id,
        None => inferred_id(s.name@),
    }
}

/// Everything `compile_device` promises of a successfully compiled plan.
pub open spec fn plan_matches_schema(plan: SlavePlan, s: DeviceSchema) -> bool {
    &&& plan.id == device_id(s)
    &&& plan.byte_size == fields_byte_size(s.fields@)
    &&& plan.regs@ == reg_table(s.fields@)
    &&& pdos_match(plan.pdos, s)
    &&& plan.sdos@.len() == 0
    &&& plan.watchdog == s.watchdog
    &&& plan.dc == s.dc
}

/// Compiles one device schema into its configuration plan.
///
/// Byte offsets accumulate strictly in field declaration order, independent
/// of any annotation; fields without an entry annotation still advance the
/// running offset but appear in no table.
#[verifier::loop_isolation(false)]
pub fn compile_device(schema: &DeviceSchema) -> (r: Result<SlavePlan, ConfigError>)
    requires
        fields_byte_size(schema.fields@) <= usize::MAX,
    ensures
        r is Ok <==> schema_ok(*schema),
        r matches Ok(plan) ==> plan_matches_schema(plan, *schema),
        r matches Err(e) ==> {
            &&& (e == ConfigError::UnknownIdentity <==> (schema.id_override is None && !name_ok(
                schema.name@,
            )))
            &&& (e matches ConfigError::UnsupportedWidth { field } ==> {
                &&& field < schema.fields@.len()
                &&& !width_ok(schema.fields@[field as int].bit_width)
                &&& forall|k: int| 0 <= k < field ==> width_ok(#[trigger] schema.fields@[k].bit_width)
            })
            &&& (e is UnknownIdentity || e is UnsupportedWidth)
        },
{
    let id = match &schema.id_override {
        Some(id) => *id,
        None => match infer_slave_id(schema.name.as_str()) {
            Ok(id) => id,
            Err(e) => {
                return Err(e);
            },
        },
    };

    // One pass over the fields: validate widths, accumulate the running
    // offset, and collect the register table.
    let mut regs: Vec<(PdoEntryIdx, Offset)> = Vec::new();
    let mut running: usize = 0;
    let mut i: usize = 0;
    let n = schema.fields.len();
    while i < n
        invariant
            0 <= i <= n,
            n == schema.fields@.len(),
            fields_byte_size(schema.fields@) <= usize::MAX,
            forall|k: int| 0 <= k < i ==> width_ok(#[trigger] schema.fields@[k].bit_width),
            running == fields_byte_size(schema.fields@.take(i as int)),
            regs@ == reg_table(schema.fields@.take(i as int)),
        decreases n - i,
    {
        let f = schema.fields[i];
        let bytes: usize = match f.bit_width {
            8 => 1,
            16 => 2,
            32 => 4,
            64 => 8,
            _ => {
                proof {
                    assert(!width_ok(schema.fields@[i as int].bit_width));
                }
                return Err(ConfigError::UnsupportedWidth { field: i });
            },
        };
        proof {
            lemma_byte_size_take_step(schema.fields@, i as int);
            lemma_byte_size_prefix(schema.fields@, i as int + 1);
            lemma_reg_table_take_step(schema.fields@, i as int);
        }
        if let Some(e) = f.entry {
            regs.push(
                (PdoEntryIdx { idx: e.idx, sub_idx: e.sub_idx }, Offset { byte: running, bit: 0 }),
            );
        }
        running = running + bytes;
        i = i + 1;
    }
    assert(schema.fields@.take(n as int) =~= schema.fields@);

    // Sync-manager assembly: resolve each "pdos" annotation against the
    // grouped entries.
    let pdos = if schema.pdos.len() == 0 {
        None
    } else {
        let mut sms: Vec<(SmCfg, Vec<PdoCfg>)> = Vec::new();
        let mut a: usize = 0;
        let na = schema.pdos.len();
        while a < na
            invariant
                0 <= a <= na,
                na == schema.pdos@.len(),
                sms@.len() == a,
                forall|k: int|
                    0 <= k < a ==> sm_pdos_match(#[trigger] sms@[k], schema.pdos@[k], schema.fields@),
            decreases na - a,
        {
            let ann = &schema.pdos[a];
            let sm = SmCfg {
                idx: ann.sm,
                direction: ann.direction,
                watchdog_mode: WatchdogMode::Default,
            };
            let mut cfgs: Vec<PdoCfg> = Vec::new();
            let mut b: usize = 0;
            let nb = ann.pdo_idxs.len();
            while b < nb
                invariant
                    0 <= b <= nb,
                    nb == ann.pdo_idxs@.len(),
                    cfgs@.len() == b,
                    forall|k: int|
                        0 <= k < b ==> pdo_cfg_matches(
                            #[trigger] cfgs@[k],
                            ann.pdo_idxs@[k],
                            schema.fields@,
                        ),
                decreases nb - b,
            {
                let p = ann.pdo_idxs[b];
                let entries = collect_pdo_entries(&schema.fields, p);
                cfgs.push(PdoCfg { idx: p, entries });
                b = b + 1;
            }
            sms.push((sm, cfgs));
            a = a + 1;
        }
        Some(sms)
    };

    Ok(
        SlavePlan {
            id,
            pdos,
            regs,
            sdos: Vec::new(),
            watchdog: schema.watchdog,
            dc: schema.dc,
            byte_size: running,
        },
    )
}

/// Collects, in declaration order, the compiled entries of every field that
/// maps through PDO `p`.
fn collect_pdo_entries(fields: &Vec<FieldSchema>, p: u16) -> (entries: Vec<PdoEntryInfo>)
    ensures
        entries_match(entries@, fields@, p),
{
    let mut entries: Vec<PdoEntryInfo> = Vec::new();
    let mut i: usize = 0;
    let n = fields.len();
    while i < n
        invariant
            0 <= i <= n,
            n == fields@.len(),
            entries@.len() == pdo_field_idxs(fields@.take(i as int), p).len(),
            forall|j: int|
                0 <= j < entries@.len() ==> entry_info_matches(
                    #[trigger] entries@[j],
                    fields@[pdo_field_idxs(fields@.take(i as int), p)[j]],
                    p,
                ),
        decreases n - i,
    {
        proof {
            lemma_pdo_field_idxs_take_step(fields@, p, i as int);
        }
        let f = fields[i];
        if let Some(e) = f.entry {
            let is_this_pdo = match e.pdo {
                Some(q) => q == p,
                None => false,
            };
            if is_this_pdo {
                entries.push(
                    PdoEntryInfo {
                        entry_idx: PdoEntryIdx { idx: e.idx, sub_idx: e.sub_idx },
                        bit_len: f.bit_width as u8,
                        name: String::new(),
                        pos: 0,
                    },
                );
            }
        }
        i = i + 1;
    }
    assert(fields@.take(n as int) =~= fields@);
    entries
}

// ---------------------------------------------------------------------------
// Deep equality of plans, and plan duplication
// ---------------------------------------------------------------------------

pub open spec fn pdo_cfg_eq(a: PdoCfg, b: PdoCfg) -> bool {
    &&& a.idx == b.idx
    &&& a.entries@ == b.entries@
}

pub open spec fn sm_pair_eq(a: (SmCfg, Vec<PdoCfg>), b: (SmCfg, Vec<PdoCfg>)) -> bool {
    &&& a.0 == b.0
    &&& a.1@.len() == b.1@.len()
    &&& forall|i: int| 0 <= i < a.1@.len() ==> pdo_cfg_eq(#[trigger] a.1@[i], b.1@[i])
}

pub open spec fn pdos_eq(
    a: Option<Vec<(SmCfg, Vec<PdoCfg>)>>,
    b: Option<Vec<(SmCfg, Vec<PdoCfg>)>>,
) -> bool {
    match (a, b) {
        (Option::None, Option::None) => true,
        (Option::Some(x), Option::Some(y)) => {
            &&& x@.len() == y@.len()
            &&& forall|i: int| 0 <= i < x@.len() ==> sm_pair_eq(#[trigger] x@[i], y@[i])
        },
        _ => false,
    }
}

/// Everything of two plans is the same but possibly their SDO tables.
pub open spec fn plan_eq_except_sdos(a: SlavePlan, b: SlavePlan) -> bool {
    &&& a.id == b.id
    &&& pdos_eq(a.pdos, b.pdos)
    &&& a.regs@ == b.regs@
    &&& a.watchdog == b.watchdog
    &&& a.dc == b.dc
    &&& a.byte_size == b.byte_size
}

/// Two plans hold the same configuration, contents compared element-wise.
pub open spec fn plan_eq(a: SlavePlan, b: SlavePlan) -> bool {
    &&& plan_eq_except_sdos(a, b)
    &&& a.sdos@ == b.sdos@
}

fn dup_entry(e: &PdoEntryInfo) -> (r: PdoEntryInfo)
    ensures
        r == *e,
{
    PdoEntryInfo { entry_idx: e.entry_idx, bit_len: e.bit_len, name: e.name.clone(), pos: e.pos }
}

fn dup_pdo_cfg(c: &PdoCfg) -> (r: PdoCfg)
    ensures
        pdo_cfg_eq(r, *c),
{
    let mut entries: Vec<PdoEntryInfo> = Vec::new();
    let mut i: usize = 0;
    let n = c.entries.len();
    while i < n
        invariant
            0 <= i <= n,
            n == c.entries@.len(),
            entries@ =~= c.entries@.take(i as int),
        decreases n - i,
    {
        entries.push(dup_entry(&c.entries[i]));
        i = i + 1;
    }
    assert(entries@ =~= c.entries@);
    PdoCfg { idx: c.idx, entries }
}

fn dup_pdos(p: &Option<Vec<(SmCfg, Vec<PdoCfg>)>>) -> (r: Option<Vec<(SmCfg, Vec<PdoCfg>)>>)
    ensures
        pdos_eq(r, *p),
{
    match p {
        None => None,
        Some(pairs) => {
            let mut out: Vec<(SmCfg, Vec<PdoCfg>)> = Vec::new();
            let mut i: usize = 0;
            let n = pairs.len();
            while i < n
                invariant
                    0 <= i <= n,
                    n == pairs@.len(),
                    out@.len() == i,
                    forall|k: int| 0 <= k < i ==> sm_pair_eq(#[trigger] out@[k], pairs@[k]),
                decreases n - i,
            {
                let pair = &pairs[i];
                let mut cfgs: Vec<PdoCfg> = Vec::new();
                let mut j: usize = 0;
                let m = pair.1.len();
                while j < m
                    invariant
                        0 <= j <= m,
                        m == pair.1@.len(),
                        cfgs@.len() == j,
                        forall|k: int| 0 <= k < j ==> pdo_cfg_eq(#[trigger] cfgs@[k], pair.1@[k]),
                    decreases m - j,
                {
                    cfgs.push(dup_pdo_cfg(&pair.1[j]));
                    j = j + 1;
                }
                out.push((pair.0, cfgs));
                i = i + 1;
            }
            Some(out)
        },
    }
}

fn dup_sdo(a: &SdoAssign) -> (r: SdoAssign)
    ensures
        r == *a,
{
    let value = match &a.value {
        SdoSource::Literal(v) => SdoSource::Literal(*v),
        SdoSource::Var(s) => SdoSource::Var(s.clone()),
    };
    SdoAssign { idx: a.idx, value }
}

fn dup_sdos(v: &Vec<SdoAssign>) -> (r: Vec<SdoAssign>)
    ensures
        r@ == v@,
{
    let mut out: Vec<SdoAssign> = Vec::new();
    let mut i: usize = 0;
    let n = v.len();
    while i < n
        invariant
            0 <= i <= n,
            n == v@.len(),
            out@ =~= v@.take(i as int),
        decreases n - i,
    {
        out.push(dup_sdo(&v[i]));
        i = i + 1;
    }
    assert(out@ =~= v@);
    out
}

fn dup_regs(v: &Vec<(PdoEntryIdx, Offset)>) -> (r: Vec<(PdoEntryIdx, Offset)>)
    ensures
        r@ == v@,
{
    let mut out: Vec<(PdoEntryIdx, Offset)> = Vec::new();
    let mut i: usize = 0;
    let n = v.len();
    while i < n
        invariant
            0 <= i <= n,
            n == v@.len(),
            out@ =~= v@.take(i as int),
        decreases n - i,
    {
        out.push(v[i]);
        i = i + 1;
    }
    assert(out@ =~= v@);
    out
}

/// Element-wise copy of one plan.
pub fn dup_plan(p: &SlavePlan) -> (r: SlavePlan)
    ensures
        plan_eq(r, *p),
{
    SlavePlan {
        id: p.id,
        pdos: dup_pdos(&p.pdos),
        regs: dup_regs(&p.regs),
        sdos: dup_sdos(&p.sdos),
        watchdog: p.watchdog,
        dc: p.dc,
        byte_size: p.byte_size,
    }
}

// ---------------------------------------------------------------------------
// Composition and repetition
// ---------------------------------------------------------------------------

/// One member of a composite image: a compiled sub-image, and an optional
/// inline SDO table that replaces the sub-image's own table for this slot.
pub struct CompositeMember {
    pub image: ProcessImageDescriptor,
    pub sdo_override: Option<Vec<SdoAssign>>,
}

/// Total declared byte size of a plan list.
pub open spec fn plans_byte_size(ps: Seq<SlavePlan>) -> int
    decreases ps.len(),
{
    if ps.len() == 0 {
        0
    } else {
        plans_byte_size(ps.drop_last()) + ps.last().byte_size
    }
}

pub proof fn lemma_plans_byte_size_push(ps: Seq<SlavePlan>, p: SlavePlan)
    ensures
        plans_byte_size(ps.push(p)) == plans_byte_size(ps) + p.byte_size,
{
    assert(ps.push(p).drop_last() =~= ps);
}

pub proof fn lemma_plans_byte_size_nonneg(ps: Seq<SlavePlan>)
    ensures
        plans_byte_size(ps) >= 0,
    decreases ps.len(),
{
    if ps.len() > 0 {
        lemma_plans_byte_size_nonneg(ps.drop_last());
    }
}

pub proof fn lemma_plans_byte_size_take_step(ps: Seq<SlavePlan>, i: int)
    requires
        0 <= i < ps.len(),
    ensures
        plans_byte_size(ps.take(i + 1)) == plans_byte_size(ps.take(i)) + ps[i].byte_size,
{
    assert(ps.take(i + 1).drop_last() =~= ps.take(i));
    assert(ps.take(i + 1).last() == ps[i]);
}

pub proof fn lemma_plans_byte_size_take_bound(ps: Seq<SlavePlan>, i: int)
    requires
        0 <= i <= ps.len(),
    ensures
        plans_byte_size(ps.take(i)) <= plans_byte_size(ps),
        plans_byte_size(ps.take(i)) >= 0,
    decreases ps.len() - i,
{
    lemma_plans_byte_size_nonneg(ps.take(i));
    if i == ps.len() {
        assert(ps.take(i) =~= ps);
    } else {
        lemma_plans_byte_size_take_step(ps, i);
        lemma_plans_byte_size_take_bound(ps, i + 1);
    }
}

impl ProcessImageDescriptor {
    /// How many slaves the image holds.
    pub fn slave_count(&self) -> (n: usize)
        ensures
            n == self.slaves@.len(),
    {
        self.slaves.len()
    }

    /// Total declared byte size: the sum of the per-device byte sizes.
    #[verifier::loop_isolation(false)]
    pub fn byte_size(&self) -> (n: usize)
        requires
            plans_byte_size(self.slaves@) <= usize::MAX,
        ensures
            n == plans_byte_size(self.slaves@),
    {
        let mut total: usize = 0;
        let mut i: usize = 0;
        let count = self.slaves.len();
        while i < count
            invariant
                0 <= i <= count,
                total == plans_byte_size(self.slaves@.take(i as int)),
            decreases count - i,
        {
            proof {
                lemma_plans_byte_size_take_step(self.slaves@, i as int);
                lemma_plans_byte_size_take_bound(self.slaves@, i as int + 1);
            }
            total = total + self.slaves[i].byte_size;
            i = i + 1;
        }
        proof {
            assert(self.slaves@.take(count as int) =~= self.slaves@);
        }
        total
    }

    /// The slave identities, in descriptor order.
    #[verifier::loop_isolation(false)]
    pub fn identities(&self) -> (ids: Vec<SlaveId>)
        ensures
            ids@.len() == self.slaves@.len(),
            forall|i: int| 0 <= i < ids@.len() ==> #[trigger] ids@[i] == self.slaves@[i].id,
    {
        let mut ids: Vec<SlaveId> = Vec::new();
        let mut i: usize = 0;
        let count = self.slaves.len();
        while i < count
            invariant
                0 <= i <= count,
                ids@.len() == i,
                forall|k: int| 0 <= k < i ==> #[trigger] ids@[k] == self.slaves@[k].id,
            decreases count - i,
        {
            ids.push(self.slaves[i].id);
            i = i + 1;
        }
        ids
    }
}

/// Sum of the slave counts of the first `i` members.
pub open spec fn members_slave_count(ms: Seq<CompositeMember>, i: int) -> int
    decreases i,
{
    if i <= 0 {
        0
    } else {
        members_slave_count(ms, i - 1) + ms[i - 1].image.slaves@.len()
    }
}

pub proof fn lemma_members_slave_count_nonneg(ms: Seq<CompositeMember>, i: int)
    ensures
        members_slave_count(ms, i) >= 0,
    decreases i,
{
    if i > 0 {
        lemma_members_slave_count_nonneg(ms, i - 1);
    }
}

pub proof fn lemma_members_slave_count_bound(ms: Seq<CompositeMember>, a: int, i: int)
    requires
        0 <= a < i <= ms.len(),
    ensures
        members_slave_count(ms, a) >= 0,
        members_slave_count(ms, a) + ms[a].image.slaves@.len() <= members_slave_count(ms, i),
    decreases i,
{
    lemma_members_slave_count_nonneg(ms, a);
    if a + 1 < i {
        lemma_members_slave_count_bound(ms, a, i - 1);
    }
}

/// Sum of the declared byte sizes of the first `i` members.
pub open spec fn members_byte_size(ms: Seq<CompositeMember>, i: int) -> int
    decreases i,
{
    if i <= 0 {
        0
    } else {
        members_byte_size(ms, i - 1) + plans_byte_size(ms[i - 1].image.slaves@)
    }
}

/// How slot `j` of a member appears in the composite: untouched without an
/// override; with one, the override becomes the table of the member's first
/// slave and any further slave of the member gets an empty table.
pub open spec fn override_slot_matches(
    out: SlavePlan,
    src: SlavePlan,
    ov: Option<Vec<SdoAssign>>,
    j: int,
) -> bool {
    match ov {
        Option::None => plan_eq(out, src),
        Option::Some(t) => {
            &&& plan_eq_except_sdos(out, src)
            &&& out.sdos@ == if j == 0 {
                t@
            } else {
                Seq::<SdoAssign>::empty()
            }
        },
    }
}

/// Concatenates the members' plans in order, identities, PDO configurations
/// and register tables unmodified — sub-device offsets stay local. The total
/// byte size is the sum of the members' byte sizes.
#[verifier::loop_isolation(false)]
pub fn compose(members: &Vec<CompositeMember>) -> (r: ProcessImageDescriptor)
    ensures
        r.slaves@.len() == members_slave_count(members@, members@.len() as int),
        plans_byte_size(r.slaves@) == members_byte_size(members@, members@.len() as int),
        forall|i: int, j: int|
            0 <= i < members@.len() && 0 <= j < members@[i].image.slaves@.len()
                ==> override_slot_matches(
                r.slaves@[members_slave_count(members@, i) + j],
                #[trigger] members@[i].image.slaves@[j],
                members@[i].sdo_override,
                j,
            ),
{
    let mut slaves: Vec<SlavePlan> = Vec::new();
    let mut i: usize = 0;
    let n = members.len();
    while i < n
        invariant
            0 <= i <= n,
            slaves@.len() == members_slave_count(members@, i as int),
            plans_byte_size(slaves@) == members_byte_size(members@, i as int),
            forall|a: int, j: int|
                0 <= a < i && 0 <= j < members@[a].image.slaves@.len() ==> override_slot_matches(
                    slaves@[members_slave_count(members@, a) + j],
                    #[trigger] members@[a].image.slaves@[j],
                    members@[a].sdo_override,
                    j,
                ),
        decreases n - i,
    {
        let member = &members[i];
        let mut j: usize = 0;
        let m = member.image.slaves.len();
        while j < m
            invariant
                0 <= j <= m,
                slaves@.len() == members_slave_count(members@, i as int) + j,
                plans_byte_size(slaves@) == members_byte_size(members@, i as int)
                    + plans_byte_size(member.image.slaves@.take(j as int)),
                forall|a: int, jj: int|
                    0 <= a < i && 0 <= jj < members@[a].image.slaves@.len()
                        ==> override_slot_matches(
                        slaves@[members_slave_count(members@, a) + jj],
                        #[trigger] members@[a].image.slaves@[jj],
                        members@[a].sdo_override,
                        jj,
                    ),
                forall|jj: int|
                    0 <= jj < j ==> override_slot_matches(
                        slaves@[members_slave_count(members@, i as int) + jj],
                        #[trigger] member.image.slaves@[jj],
                        member.sdo_override,
                        jj,
                    ),
            decreases m - j,
        {
            let src = &member.image.slaves[j];
            let mut plan = dup_plan(src);
            match &member.sdo_override {
                None => {},
                Some(t) => {
                    if j == 0 {
                        plan.sdos = dup_sdos(t);
                    } else {
                        plan.sdos = Vec::new();
                    }
                },
            }
            proof {
                lemma_plans_byte_size_push(slaves@, plan);
                assert(member.image.slaves@.take(j as int + 1).drop_last() =~= member.image.slaves@.take(j as int));
                assert forall|a: int, jj: int|
                    #![trigger members@[a].image.slaves@[jj]]
                    0 <= a < i && 0 <= jj < members@[a].image.slaves@.len()
                        implies 0 <= members_slave_count(members@, a) + jj < members_slave_count(
                        members@,
                        i as int,
                    ) by {
                    lemma_members_slave_count_bound(members@, a, i as int);
                }
            }
            slaves.push(plan);
            j = j + 1;
        }
        proof {
            assert(member.image.slaves@.take(m as int) =~= member.image.slaves@);
        }
        i = i + 1;
    }
    ProcessImageDescriptor { slaves }
}

/// Descriptor repetition: `copies` identical copies of `d`, its identities,
/// PDO configuration and register table each repeated in order; the byte size
/// is `copies` times the byte size of `d`.
#[verifier::loop_isolation(false)]
pub fn repeat_image(d: &ProcessImageDescriptor, copies: usize) -> (r: ProcessImageDescriptor)
    ensures
        r.slaves@.len() == copies * d.slaves@.len(),
        plans_byte_size(r.slaves@) == copies * plans_byte_size(d.slaves@),
        forall|k: int|
            0 <= k < r.slaves@.len() ==> plan_eq(
                #[trigger] r.slaves@[k],
                d.slaves@[k % (d.slaves@.len() as int)],
            ),
{
    let m = d.slaves.len();
    let mut slaves: Vec<SlavePlan> = Vec::new();
    let mut c: usize = 0;
    while c < copies
        invariant
            0 <= c <= copies,
            slaves@.len() == c * m,
            plans_byte_size(slaves@) == c * plans_byte_size(d.slaves@),
            forall|k: int|
                0 <= k < slaves@.len() ==> plan_eq(#[trigger] slaves@[k], d.slaves@[k % (m as int)]),
        decreases copies - c,
    {
        let mut j: usize = 0;
        while j < m
            invariant
                0 <= j <= m,
                slaves@.len() == c * m + j,
                plans_byte_size(slaves@) == c * plans_byte_size(d.slaves@) + plans_byte_size(
                    d.slaves@.take(j as int),
                ),
                forall|k: int|
                    0 <= k < slaves@.len() ==> plan_eq(
                        #[trigger] slaves@[k],
                        d.slaves@[k % (m as int)],
                    ),
            decreases m - j,
        {
            let plan = dup_plan(&d.slaves[j]);
            proof {
                lemma_plans_byte_size_push(slaves@, plan);
                assert(d.slaves@.take(j as int + 1).drop_last() =~= d.slaves@.take(j as int));
                assert((c * m + j) % (m as int) == j) by {
                    vstd::arithmetic::div_mod::lemma_mod_multiples_vanish(
                        c as int,
                        j as int,
                        m as int,
                    );
                    vstd::arithmetic::div_mod::lemma_small_mod(j as nat, m as nat);
                }
            }
            slaves.push(plan);
            j = j + 1;
        }
        proof {
            assert(d.slaves@.take(m as int) =~= d.slaves@);
            assert((c + 1) * m == c * m + m) by (nonlinear_arith);
            assert((c + 1) * plans_byte_size(d.slaves@) == c * plans_byte_size(d.slaves@)
                + plans_byte_size(d.slaves@)) by (nonlinear_arith);
        }
        c = c + 1;
    }
    ProcessImageDescriptor { slaves }
}

// ---------------------------------------------------------------------------
// SDO resolution at configuration time
// ---------------------------------------------------------------------------

use crate::types::{SdoIdx, SdoValue};

/// A runtime configuration source for named SDO placeholders.
pub trait ProcessConfig {
    /// What the source answers for a name.
    spec fn spec_sdo_var(&self, name: Seq<char>) -> Option<SdoValue>;

    /// Looks a named value up.
    fn get_sdo_var(&self, name: &str) -> (r: Option<SdoValue>)
        ensures
            r == self.spec_sdo_var(name@),
    ;
}

/// A configuration source built from explicit name/value pairs; the first
/// pair with a matching name wins.
pub struct SdoOverrides {
    pub entries: Vec<(String, SdoValue)>,
}

pub open spec fn spec_lookup(entries: Seq<(String, SdoValue)>, name: Seq<char>) -> Option<SdoValue>
    decreases entries.len(),
{
    if entries.len() == 0 {
        None
    } else if entries.first().0@ == name {
        Some(entries.first().1)
    } else {
        spec_lookup(entries.drop_first(), name)
    }
}

proof fn lemma_lookup_skip(entries: Seq<(String, SdoValue)>, name: Seq<char>, i: int)
    requires
        0 <= i <= entries.len(),
        forall|k: int| 0 <= k < i ==> (#[trigger] entries[k]).0@ != name,
    ensures
        spec_lookup(entries.skip(i), name) == spec_lookup(entries, name),
    decreases i,
{
    if i > 0 {
        lemma_lookup_skip(entries, name, i - 1);
        assert(entries.skip(i - 1).first() == entries[i - 1]);
        assert(entries.skip(i - 1).drop_first() =~= entries.skip(i));
    } else {
        assert(entries.skip(0) =~= entries);
    }
}

impl ProcessConfig for SdoOverrides {
    open spec fn spec_sdo_var(&self, name: Seq<char>) -> Option<SdoValue> {
        spec_lookup(self.entries@, name)
    }

    #[verifier::loop_isolation(false)]
    fn get_sdo_var(&self, name: &str) -> (r: Option<SdoValue>) {
        let owned = name.to_owned();
        let mut i: usize = 0;
        let n = self.entries.len();
        while i < n
            invariant
                0 <= i <= n,
                forall|k: int| 0 <= k < i ==> (#[trigger] self.entries@[k]).0@ != name@,
            decreases n - i,
        {
            if self.entries[i].0 == owned {
                proof {
                    lemma_lookup_skip(self.entries@, name@, i as int);
                    assert(self.entries@.skip(i as int).first() == self.entries@[i as int]);
                }
                return Some(self.entries[i].1);
            }
            i = i + 1;
        }
        proof {
            lemma_lookup_skip(self.entries@, name@, n as int);
            assert(self.entries@.skip(n as int) =~= Seq::<(String, SdoValue)>::empty());
        }
        None
    }
}

/// What one schema-level SDO value resolves to under a configuration source:
/// a literal is itself; a placeholder is whatever the source answers.
pub open spec fn resolve_source<C: ProcessConfig>(src: SdoSource, cfg: &C) -> Option<SdoValue> {
    match src {
        SdoSource::Literal(v) => Some(v),
        SdoSource::Var(s) => cfg.spec_sdo_var(s@),
    }
}

pub open spec fn sdos_resolvable<C: ProcessConfig>(sdos: Seq<SdoAssign>, cfg: &C) -> bool {
    forall|j: int| 0 <= j < sdos.len() ==> resolve_source(#[trigger] sdos[j].value, cfg) is Some
}

pub open spec fn desc_resolvable<C: ProcessConfig>(d: ProcessImageDescriptor, cfg: &C) -> bool {
    forall|i: int|
        0 <= i < d.slaves@.len() ==> sdos_resolvable(#[trigger] d.slaves@[i].sdos@, cfg)
}

/// Resolves every SDO table of a descriptor against a configuration source,
/// turning placeholders into concrete values. A placeholder the source cannot
/// resolve fails, naming the placeholder; this happens at configuration time,
/// never at schema compile time.
#[verifier::loop_isolation(false)]
pub fn resolve_sdos<C: ProcessConfig>(d: &ProcessImageDescriptor, cfg: &C) -> (r: Result<
    Vec<Vec<(SdoIdx, SdoValue)>>,
    ConfigError,
>)
    ensures
        r is Ok <==> desc_resolvable(*d, cfg),
        r matches Ok(tables) ==> {
            &&& tables@.len() == d.slaves@.len()
            &&& forall|i: int|
                0 <= i < tables@.len() ==> (#[trigger] tables@[i])@.len() == d.slaves@[i].sdos@.len()
            &&& forall|i: int, j: int|
                0 <= i < tables@.len() && 0 <= j < tables@[i]@.len() ==> {
                    &&& (#[trigger] tables@[i]@[j]).0 == d.slaves@[i].sdos@[j].idx
                    &&& Some(tables@[i]@[j].1) == resolve_source(d.slaves@[i].sdos@[j].value, cfg)
                }
        },
        r matches Err(e) ==> e matches ConfigError::UnresolvedSdoVar { name } && exists|i: int, j: int|
            {
                &&& 0 <= i < d.slaves@.len()
                &&& 0 <= j < d.slaves@[i].sdos@.len()
                &&& {
                    let src = (#[trigger] d.slaves@[i].sdos@[j]).value;
                    &&& src matches SdoSource::Var(nm)
                    &&& nm@ == name@
                    &&& cfg.spec_sdo_var(nm@) is None
                }
            },
{
    let mut tables: Vec<Vec<(SdoIdx, SdoValue)>> = Vec::new();
    let mut i: usize = 0;
    let n = d.slaves.len();
    while i < n
        invariant
            0 <= i <= n,
            tables@.len() == i,
            forall|a: int| 0 <= a < i ==> sdos_resolvable(#[trigger] d.slaves@[a].sdos@, cfg),
            forall|a: int|
                0 <= a < i ==> (#[trigger] tables@[a])@.len() == d.slaves@[a].sdos@.len(),
            forall|a: int, j: int|
                0 <= a < i && 0 <= j < tables@[a]@.len() ==> {
                    &&& (#[trigger] tables@[a]@[j]).0 == d.slaves@[a].sdos@[j].idx
                    &&& Some(tables@[a]@[j].1) == resolve_source(d.slaves@[a].sdos@[j].value, cfg)
                },
        decreases n - i,
    {
        let sdos = &d.slaves[i].sdos;
        let mut table: Vec<(SdoIdx, SdoValue)> = Vec::new();
        let mut j: usize = 0;
        let m = sdos.len();
        while j < m
            invariant
                0 <= j <= m,
                table@.len() == j,
                forall|k: int|
                    0 <= k < j ==> resolve_source(#[trigger] sdos@[k].value, cfg) is Some,
                forall|k: int|
                    0 <= k < j ==> {
                        &&& (#[trigger] table@[k]).0 == sdos@[k].idx
                        &&& Some(table@[k].1) == resolve_source(sdos@[k].value, cfg)
                    },
            decreases m - j,
        {
            let assign = &sdos[j];
            let value = match &assign.value {
                SdoSource::Literal(v) => *v,
                SdoSource::Var(s) => {
                    match cfg.get_sdo_var(s.as_str()) {
                        Some(v) => v,
                        None => {
                            proof {
                                assert(d.slaves@[i as int].sdos@[j as int] == sdos@[j as int]);
                            }
                            return Err(ConfigError::UnresolvedSdoVar { name: s.clone() });
                        },
                    }
                },
            };
            table.push((assign.idx, value));
            j = j + 1;
        }
        tables.push(table);
        i = i + 1;
    }
    Ok(tables)
}

} // verus!
