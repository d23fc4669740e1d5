use threadstat::perf_config::{
    CacheId, CacheOperation, CacheResult, HardwareEvent, PerfConfig, EXCLUDE_HV_BIT,
    PERF_ATTR_SIZE, PERF_TYPE_HARDWARE, PERF_TYPE_HW_CACHE,
};

#[test]
fn default_attr_is_zero_with_size() {
    let a = PerfConfig::default_perf_event_attr();
    assert_eq!(a.size, 136);
    assert_eq!(a.size, PERF_ATTR_SIZE);
    assert_eq!(a.type_, 0);
    assert_eq!(a.config, 0);
    assert_eq!(a.flags, 0);
    assert_eq!(a.read_format, 0);
}

#[test]
fn hardware_event_ids() {
    assert_eq!(HardwareEvent::CpuCycles.get_value(), 0);
    assert_eq!(HardwareEvent::Instructions.get_value(), 1);
    assert_eq!(HardwareEvent::CacheMisses.get_value(), 3);
    assert_eq!(HardwareEvent::RefCpuCycles.get_value(), 9);
}

#[test]
fn hardware_event_config() {
    let c = PerfConfig::hardware_event(HardwareEvent::BranchMisses);
    let a = c.attr();
    assert_eq!(a.type_, PERF_TYPE_HARDWARE);
    assert_eq!(a.config, 5);
    assert_eq!(a.flags, EXCLUDE_HV_BIT);
    assert_eq!(a.size, 136);
}

#[test]
fn cache_event_config_layout() {
    let c = PerfConfig::hardware_cache_event(CacheId::LL, CacheOperation::Prefetch, CacheResult::Miss);
    let a = c.attr();
    assert_eq!(a.type_, PERF_TYPE_HW_CACHE);
    assert_eq!(a.config, 2 | (2 << 8) | (1 << 16));
    assert_eq!(a.config, 0x10202);
    assert_eq!(a.flags & EXCLUDE_HV_BIT, EXCLUDE_HV_BIT);
}

#[test]
fn distinct_cache_events_have_distinct_configs() {
    let a = PerfConfig::hardware_cache_event(CacheId::L1D, CacheOperation::Write, CacheResult::Access);
    let b = PerfConfig::hardware_cache_event(CacheId::L1I, CacheOperation::Read, CacheResult::Access);
    assert_ne!(a.attr().config, b.attr().config);
    assert_eq!(a.attr().config, 0x100);
    assert_eq!(b.attr().config, 0x1);
}

#[test]
fn exclude_hv_reads_back_and_keeps_other_flags() {
    let mut attr = PerfConfig::default_perf_event_attr();
    attr.flags = 0b1011_0001;
    let on = PerfConfig(attr).set_exlude_hv(true);
    assert_eq!(on.attr().flags, 0b1111_0001);
    let off = on.set_exlude_hv(false);
    assert_eq!(off.attr().flags, 0b1011_0001);
    let twice = PerfConfig(attr).set_exlude_hv(true).set_exlude_hv(false);
    assert_eq!(twice.attr().flags, off.attr().flags);
    assert_eq!(off.attr().config, attr.config);
}
