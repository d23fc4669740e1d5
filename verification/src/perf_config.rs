//! Counter configurations: the kernel's `perf_event_attr`, held as plain integers, and the
//! named hardware and cache events that fill it in.

use vstd::prelude::*;

verus! {

/// Size in bytes of the kernel's `perf_event_attr` (the layout that ends with `config3`).
pub const PERF_ATTR_SIZE: u32 = 136;

/// `PERF_TYPE_HARDWARE`: a generalized hardware event.
pub const PERF_TYPE_HARDWARE: u32 = 0;

/// `PERF_TYPE_HW_CACHE`: a generalized cache event.
pub const PERF_TYPE_HW_CACHE: u32 = 3;

/// `PERF_FORMAT_TOTAL_TIME_ENABLED`.
pub const PERF_FORMAT_TOTAL_TIME_ENABLED: u64 = 1;

/// `PERF_FORMAT_TOTAL_TIME_RUNNING`.
pub const PERF_FORMAT_TOTAL_TIME_RUNNING: u64 = 2;

/// `PERF_FORMAT_ID`.
pub const PERF_FORMAT_ID: u64 = 4;

/// `PERF_FORMAT_GROUP`.
pub const PERF_FORMAT_GROUP: u64 = 8;

/// The bit of the attribute flag word that holds `exclude_hv`.
pub const EXCLUDE_HV_BIT: u64 = 0x40;

/// Every field of the kernel's `perf_event_attr`, in order. Unions are held by their widest
/// member and the bitfield word as one `u64`.
#[derive(Clone, Copy, Debug, PartialEq, Eq)]
pub struct PerfEventAttr {
    pub type_: u32,
    pub size: u32,
    pub config: u64,
    pub sample_period: u64,
    pub sample_type: u64,
    pub read_format: u64,
    pub flags: u64,
    pub wakeup_events: u32,
    pub bp_type: u32,
    pub config1: u64,
    pub config2: u64,
    pub branch_sample_type: u64,
    pub sample_regs_user: u64,
    pub sample_stack_user: u32,
    pub clockid: i32,
    pub sample_regs_intr: u64,
    pub aux_watermark: u32,
    pub sample_max_stack: u16,
    pub reserved_2: u16,
    pub aux_sample_size: u32,
    pub reserved_3: u32,
    pub sig_data: u64,
    pub config3: u64,
}

/// The attribute that is all zeroes but for its own size.
pub open spec fn sized_zero_attr() -> PerfEventAttr {
    PerfEventAttr {
        type_: 0,
        size: PERF_ATTR_SIZE,
        config: 0,
        sample_period: 0,
        sample_type: 0,
        read_format: 0,
        flags: 0,
        wakeup_events: 0,
        bp_type: 0,
        config1: 0,
        config2: 0,
        branch_sample_type: 0,
        sample_regs_user: 0,
        sample_stack_user: 0,
        clockid: 0,
        sample_regs_intr: 0,
        aux_watermark: 0,
        sample_max_stack: 0,
        reserved_2: 0,
        aux_sample_size: 0,
        reserved_3: 0,
        sig_data: 0,
        config3: 0,
    }
}

/// Whether the attribute's flag word has `exclude_hv` set.
pub open spec fn excludes_hv(attr: PerfEventAttr) -> bool {
    attr.flags & EXCLUDE_HV_BIT != 0
}

/// The flag word with `exclude_hv` set to `value` and every other bit kept.
pub open spec fn flags_with_exclude_hv(flags: u64, value: bool) -> u64 {
    if value {
        flags | EXCLUDE_HV_BIT
    } else {
        flags & !EXCLUDE_HV_BIT
    }
}

/// A counter configuration: the attribute handed to `perf_event_open`.
#[derive(Clone, Copy, Debug)]
pub struct PerfConfig(pub PerfEventAttr);

/// The generalized hardware events.
#[derive(Clone, Copy, Debug, PartialEq, Eq)]
pub enum HardwareEvent {
    CpuCycles,
    Instructions,
    CacheReferences,
    CacheMisses,
    BranchInstructions,
    BranchMisses,
    BusCycles,
    StalledCyclesFrontend,
    StalledCyclesBackend,
    RefCpuCycles,
}

/// The kernel's `perf_hw_id` of a hardware event.
pub open spec fn hardware_event_id(e: HardwareEvent) -> u32 {
    match e {
        HardwareEvent::CpuCycles => 0,
        HardwareEvent::Instructions => 1,
        HardwareEvent::CacheReferences => 2,
        HardwareEvent::CacheMisses => 3,
        HardwareEvent::BranchInstructions => 4,
        HardwareEvent::BranchMisses => 5,
        HardwareEvent::BusCycles => 6,
        HardwareEvent::StalledCyclesFrontend => 7,
        HardwareEvent::StalledCyclesBackend => 8,
        HardwareEvent::RefCpuCycles => 9,
    }
}

impl HardwareEvent {
    /// The kernel's `perf_hw_id` for this event.
    pub fn get_value(&self) -> (r: u32)
        ensures
            r == hardware_event_id(*self),
    {
        match self {
            HardwareEvent::CpuCycles => 0,
            HardwareEvent::Instructions => 1,
            HardwareEvent::CacheReferences => 2,
            HardwareEvent::CacheMisses => 3,
            HardwareEvent::BranchInstructions => 4,
            HardwareEvent::BranchMisses => 5,
            HardwareEvent::BusCycles => 6,
            HardwareEvent::StalledCyclesFrontend => 7,
            HardwareEvent::StalledCyclesBackend => 8,
            HardwareEvent::RefCpuCycles => 9,
        }
    }
}

/// The caches a cache event can count.
#[derive(Clone, Copy, Debug, PartialEq, Eq)]
pub enum CacheId {
    L1D,
    L1I,
    LL,
    DTLB,
    ITLB,
    BPU,
    Node,
}

/// The kernel's `perf_hw_cache_id` of a cache.
pub open spec fn cache_id_value(c: CacheId) -> u32 {
    match c {
        CacheId::L1D => 0,
        CacheId::L1I => 1,
        CacheId::LL => 2,
        CacheId::DTLB => 3,
        CacheId::ITLB => 4,
        CacheId::BPU => 5,
        CacheId::Node => 6,
    }
}

impl CacheId {
    /// The kernel's `perf_hw_cache_id` for this cache.
    pub fn get_value(&self) -> (r: u32)
        ensures
            r == cache_id_value(*self),
    {
        match self {
            CacheId::L1D => 0,
            CacheId::L1I => 1,
            CacheId::LL => 2,
            CacheId::DTLB => 3,
            CacheId::ITLB => 4,
            CacheId::BPU => 5,
            CacheId::Node => 6,
        }
    }
}

/// The cache accesses a cache event can count.
#[derive(Clone, Copy, Debug, PartialEq, Eq)]
pub enum CacheOperation {
    Read,
    Write,
    Prefetch,
}

/// The kernel's `perf_hw_cache_op_id` of an operation.
pub open spec fn cache_op_value(o: CacheOperation) -> u32 {
    match o {
        CacheOperation::Read => 0,
        CacheOperation::Write => 1,
        CacheOperation::Prefetch => 2,
    }
}

impl CacheOperation {
    /// The kernel's `perf_hw_cache_op_id` for this operation.
    pub fn get_value(&self) -> (r: u32)
        ensures
            r == cache_op_value(*self),
    {
        match self {
            CacheOperation::Read => 0,
            CacheOperation::Write => 1,
            CacheOperation::Prefetch => 2,
        }
    }
}

/// Whether a cache event counts every access or only the misses.
#[derive(Clone, Copy, Debug, PartialEq, Eq)]
pub enum CacheResult {
    Access,
    Miss,
}

/// The kernel's `perf_hw_cache_op_result_id` of a result.
pub open spec fn cache_result_value(r: CacheResult) -> u32 {
    match r {
        CacheResult::Access => 0,
        CacheResult::Miss => 1,
    }
}

impl CacheResult {
    /// The kernel's `perf_hw_cache_op_result_id` for this result.
    pub fn get_value(&self) -> (r: u32)
        ensures
            r == cache_result_value(*self),
    {
        match self {
            CacheResult::Access => 0,
            CacheResult::Miss => 1,
        }
    }
}

/// The `config` of a cache event: the cache id, the operation shifted by 8 and the result
/// shifted by 16, as `perf_event_open(2)` lays them out.
pub open spec fn cache_event_config(cache: CacheId, op: CacheOperation, result: CacheResult) -> u64 {
    (cache_id_value(cache) + 256 * cache_op_value(op) + 65536 * cache_result_value(result)) as u64
}

proof fn lemma_cache_fields_or_is_sum(c: u32, o: u32, r: u32)
    requires
        c < 256,
        o < 256,
        r < 256,
    ensures
        (c | (o << 8u32) | (r << 16u32)) as u64 == (c + 256 * o + 65536 * r) as u64,
{
    assert((c | (o << 8u32) | (r << 16u32)) == c + 256 * o + 65536 * r) by (bit_vector)
        requires
            c < 256,
            o < 256,
            r < 256,
    ;
}

/// Setting `exclude_hv` to a value leaves the flag word reading that value back, keeps every
/// other bit as it was, and a second setting overrides the first.
pub proof fn lemma_exclude_hv_reads_back(flags: u64, value: bool, later: bool)
    ensures
        (flags_with_exclude_hv(flags, value) & EXCLUDE_HV_BIT != 0) == value,
        flags_with_exclude_hv(flags, value) & !EXCLUDE_HV_BIT == flags & !EXCLUDE_HV_BIT,
        flags_with_exclude_hv(flags_with_exclude_hv(flags, value), later)
            == flags_with_exclude_hv(flags, later),
{
    assert((flags | 0x40u64) & 0x40u64 != 0) by (bit_vector);
    assert((flags & !0x40u64) & 0x40u64 == 0) by (bit_vector);
    assert((flags | 0x40u64) & !0x40u64 == flags & !0x40u64) by (bit_vector);
    assert((flags & !0x40u64) & !0x40u64 == flags & !0x40u64) by (bit_vector);
    assert((flags | 0x40u64) | 0x40u64 == flags | 0x40u64) by (bit_vector);
    assert((flags & !0x40u64) | 0x40u64 == flags | 0x40u64) by (bit_vector);
    assert((flags | 0x40u64) & !0x40u64 == flags & !0x40u64) by (bit_vector);
}

/// A cache event's `config` gives back its cache id in the low byte, its operation in the
/// next byte and its result in the third, so two different cache events never share a
/// `config`.
pub proof fn lemma_cache_event_config_decodes(cache: CacheId, op: CacheOperation, result: CacheResult)
    ensures
        cache_event_config(cache, op, result) & 0xff == cache_id_value(cache) as u64,
        (cache_event_config(cache, op, result) >> 8u64) & 0xff == cache_op_value(op) as u64,
        cache_event_config(cache, op, result) >> 16u64 == cache_result_value(result) as u64,
{
    let c = cache_id_value(cache) as u64;
    let o = cache_op_value(op) as u64;
    let r = cache_result_value(result) as u64;
    assert(c < 256 && o < 256 && r < 256);
    let v = cache_event_config(cache, op, result);
    assert(v == c + 256 * o + 65536 * r);
    assert(v & 0xff == c && (v >> 8u64) & 0xff == o && v >> 16u64 == r) by (bit_vector)
        requires
            v == c + 256 * o + 65536 * r,
            c < 256,
            o < 256,
            r < 256,
    ;
}

/// The event types, read-format bits and flag bit are the kernel's: `PERF_TYPE_HARDWARE` 0,
/// `PERF_TYPE_HW_CACHE` 3, `PERF_FORMAT_TOTAL_TIME_ENABLED` 1, `PERF_FORMAT_TOTAL_TIME_RUNNING` 2,
/// `PERF_FORMAT_ID` 4, `PERF_FORMAT_GROUP` 8, and `exclude_hv` is bit 6 of the flag word.
pub proof fn lemma_constants_are_the_kernels()
    ensures
        PERF_TYPE_HARDWARE == 0,
        PERF_TYPE_HW_CACHE == 3,
        PERF_FORMAT_TOTAL_TIME_ENABLED == 1,
        PERF_FORMAT_TOTAL_TIME_RUNNING == 2,
        PERF_FORMAT_ID == 4,
        PERF_FORMAT_GROUP == 8,
        EXCLUDE_HV_BIT == 1u64 << 6u64,
{
    assert(1u64 << 6u64 == 0x40u64) by (bit_vector);
}

/// Each hardware event is counted under the id the kernel gives it in `enum perf_hw_id`:
/// cycles 0, instructions 1, cache references 2, cache misses 3, branch instructions 4, branch
/// misses 5, bus cycles 6, front-end stalls 7, back-end stalls 8 and reference cycles 9.
pub proof fn lemma_hardware_event_ids_are_the_kernels()
    ensures
        hardware_event_id(HardwareEvent::CpuCycles) == 0,
        hardware_event_id(HardwareEvent::Instructions) == 1,
        hardware_event_id(HardwareEvent::CacheReferences) == 2,
        hardware_event_id(HardwareEvent::CacheMisses) == 3,
        hardware_event_id(HardwareEvent::BranchInstructions) == 4,
        hardware_event_id(HardwareEvent::BranchMisses) == 5,
        hardware_event_id(HardwareEvent::BusCycles) == 6,
        hardware_event_id(HardwareEvent::StalledCyclesFrontend) == 7,
        hardware_event_id(HardwareEvent::StalledCyclesBackend) == 8,
        hardware_event_id(HardwareEvent::RefCpuCycles) == 9,
{
}

/// Each cache, operation and result is encoded with the kernel's own value from
/// `enum perf_hw_cache_id`, `perf_hw_cache_op_id` and `perf_hw_cache_op_result_id`: L1D 0,
/// L1I 1, LL 2, DTLB 3, ITLB 4, BPU 5, NODE 6; read 0, write 1, prefetch 2; access 0, miss 1.
pub proof fn lemma_cache_values_are_the_kernels()
    ensures
        cache_id_value(CacheId::L1D) == 0,
        cache_id_value(CacheId::L1I) == 1,
        cache_id_value(CacheId::LL) == 2,
        cache_id_value(CacheId::DTLB) == 3,
        cache_id_value(CacheId::ITLB) == 4,
        cache_id_value(CacheId::BPU) == 5,
        cache_id_value(CacheId::Node) == 6,
        cache_op_value(CacheOperation::Read) == 0,
        cache_op_value(CacheOperation::Write) == 1,
        cache_op_value(CacheOperation::Prefetch) == 2,
        cache_result_value(CacheResult::Access) == 0,
        cache_result_value(CacheResult::Miss) == 1,
{
}

/// Different cache events have different `config` values.
pub proof fn lemma_cache_event_config_injective(
    cache1: CacheId,
    op1: CacheOperation,
    result1: CacheResult,
    cache2: CacheId,
    op2: CacheOperation,
    result2: CacheResult,
)
    requires
        cache_event_config(cache1, op1, result1) == cache_event_config(cache2, op2, result2),
    ensures
        cache1 == cache2,
        op1 == op2,
        result1 == result2,
{
    lemma_cache_event_config_decodes(cache1, op1, result1);
    lemma_cache_event_config_decodes(cache2, op2, result2);
}

impl PerfConfig {
    /// The attribute all zeroes but for its size, which is how every configuration starts.
    pub fn default_perf_event_attr() -> (r: PerfEventAttr)
        ensures
            r == sized_zero_attr(),
    {
        PerfEventAttr {
            type_: 0,
            size: PERF_ATTR_SIZE,
            config: 0,
            sample_period: 0,
            sample_type: 0,
            read_format: 0,
            flags: 0,
            wakeup_events: 0,
            bp_type: 0,
            config1: 0,
            config2: 0,
            branch_sample_type: 0,
            sample_regs_user: 0,
            sample_stack_user: 0,
            clockid: 0,
            sample_regs_intr: 0,
            aux_watermark: 0,
            sample_max_stack: 0,
            reserved_2: 0,
            aux_sample_size: 0,
            reserved_3: 0,
            sig_data: 0,
            config3: 0,
        }
    }

    /// The attribute this configuration holds.
    pub fn attr(&self) -> (r: PerfEventAttr)
        ensures
            r == self.0,
    {
        self.0
    }

    /// The same configuration with `exclude_hv` set to `value`; nothing else changes.
    pub fn set_exlude_hv(self, value: bool) -> (r: Self)
        ensures
            r.0 == (PerfEventAttr { flags: flags_with_exclude_hv(self.0.flags, value), ..self.0 }),
    {
        let mut attr = self.0;
        if value {
            attr.flags = attr.flags | EXCLUDE_HV_BIT;
        } else {
            attr.flags = attr.flags & !EXCLUDE_HV_BIT;
        }
        PerfConfig(attr)
    }

    /// Counts a generalized hardware event, leaving the hypervisor out.
    pub fn hardware_event(event: HardwareEvent) -> (r: Self)
        ensures
            r.0 == (PerfEventAttr {
                type_: PERF_TYPE_HARDWARE,
                config: hardware_event_id(event) as u64,
                flags: EXCLUDE_HV_BIT,
                ..sized_zero_attr()
            }),
    {
        let mut attr = Self::default_perf_event_attr();
        attr.type_ = PERF_TYPE_HARDWARE;
        attr.config = event.get_value() as u64;
        let r = PerfConfig(attr).set_exlude_hv(true);
        assert(0u64 | EXCLUDE_HV_BIT == EXCLUDE_HV_BIT) by (bit_vector);
        r
    }

    /// Counts a generalized cache event, leaving the hypervisor out.
    pub fn hardware_cache_event(cache: CacheId, op: CacheOperation, result: CacheResult) -> (r: Self)
        ensures
            r.0 == (PerfEventAttr {
                type_: PERF_TYPE_HW_CACHE,
                config: cache_event_config(cache, op, result),
                flags: EXCLUDE_HV_BIT,
                ..sized_zero_attr()
            }),
    {
        let mut attr = Self::default_perf_event_attr();
        attr.type_ = PERF_TYPE_HW_CACHE;
        let c = cache.get_value();
        let o = op.get_value();
        let res = result.get_value();
        proof {
            lemma_cache_fields_or_is_sum(c, o, res);
        }
        attr.config = (c | (o << 8u32) | (res << 16u32)) as u64;
        let r = PerfConfig(attr).set_exlude_hv(true);
        assert(0u64 | EXCLUDE_HV_BIT == EXCLUDE_HV_BIT) by (bit_vector);
        r
    }
}

} // verus!
