//! Trusted boundary to the hardware probes.
//!
//! Everything here either declares an outside type or wraps a single
//! call into `sysinfo`, `nvml_wrapper`, `raw_cpuid` or the standard
//! clock. The readings depend on the machine and the moment, so the
//! wrappers promise nothing about the values; the collector takes them
//! as arguments and all computation on them is verified. A probe that
//! fails returns `None`, and the collector degrades that reading to
//! zero or absent rather than failing the tick.

use vstd::prelude::*;

verus! {

/// Declares sysinfo::System, the handle to the CPU, memory and process
/// probes.
#[verifier::external_type_specification]
#[verifier::external_body]
pub struct ExSystem(sysinfo::System);

/// Declares sysinfo::Cpu, one logical core's reading.
#[verifier::external_type_specification]
#[verifier::external_body]
pub struct ExCpu(sysinfo::Cpu);

/// Declares sysinfo::Process, one process-table entry.
#[verifier::external_type_specification]
#[verifier::external_body]
pub struct ExProcess(sysinfo::Process);

/// Declares sysinfo::Networks, the interface list and its counters.
#[verifier::external_type_specification]
#[verifier::external_body]
pub struct ExNetworks(sysinfo::Networks);

/// Declares sysinfo::NetworkData, one interface's counters.
#[verifier::external_type_specification]
#[verifier::external_body]
pub struct ExNetworkData(sysinfo::NetworkData);

/// Declares nvml_wrapper::Nvml, the GPU telemetry library handle.
#[verifier::external_type_specification]
#[verifier::external_body]
pub struct ExNvml(nvml_wrapper::Nvml);

/// Declares nvml_wrapper::Device, a handle to one GPU.
#[verifier::external_type_specification]
#[verifier::external_body]
pub struct ExDevice<'a>(nvml_wrapper::Device<'a>);

/// Declares std::time::Instant, a reading of the monotonic clock.
#[verifier::external_type_specification]
#[verifier::external_body]
pub struct ExInstant(std::time::Instant);

/// Relies on sysinfo::System::new_all: a probe handle with every list
/// refreshed once.
#[verifier::external_body]
pub(crate) fn sys_new_all() -> sysinfo::System {
    sysinfo::System::new_all()
}

/// Relies on sysinfo::System::refresh_cpu_specifics: re-reads per-core
/// usage and frequency.
#[verifier::external_body]
pub(crate) fn refresh_cpu(sys: &mut sysinfo::System) {
    sys.refresh_cpu_specifics(
        sysinfo::CpuRefreshKind::nothing().with_cpu_usage().with_frequency(),
    );
}

/// Relies on sysinfo::System::refresh_processes: re-reads the process
/// table, dropping processes that have exited.
#[verifier::external_body]
pub(crate) fn refresh_processes(sys: &mut sysinfo::System) {
    let _count = sys.refresh_processes(sysinfo::ProcessesToUpdate::All, true);
}

/// Relies on sysinfo::System::refresh_memory: re-reads memory counters.
#[verifier::external_body]
pub(crate) fn refresh_memory(sys: &mut sysinfo::System) {
    sys.refresh_memory();
}

/// Relies on sysinfo::System::cpus: the logical cores, one entry each.
#[verifier::external_body]
pub(crate) fn sys_cpus<'a>(sys: &'a sysinfo::System) -> &'a [sysinfo::Cpu] {
    sys.cpus()
}

/// Relies on sysinfo::Cpu::cpu_usage: the core's usage since the last
/// refresh, a percentage; kept as whole percent.
#[verifier::external_body]
pub(crate) fn cpu_usage_percent(cpu: &sysinfo::Cpu) -> u32 {
    cpu.cpu_usage() as u32
}

/// Relies on sysinfo::Cpu::frequency: the core's frequency in MHz.
#[verifier::external_body]
pub(crate) fn cpu_frequency_mhz(cpu: &sysinfo::Cpu) -> u64 {
    cpu.frequency()
}

/// Relies on sysinfo::Cpu::brand: the vendor's brand string.
#[verifier::external_body]
pub(crate) fn cpu_brand(cpu: &sysinfo::Cpu) -> String {
    cpu.brand().to_owned()
}

/// Relies on sysinfo::System::used_memory: used RAM in bytes.
#[verifier::external_body]
pub(crate) fn used_memory(sys: &sysinfo::System) -> u64 {
    sys.used_memory()
}

/// Relies on sysinfo::System::total_memory: installed RAM in bytes.
#[verifier::external_body]
pub(crate) fn total_memory(sys: &sysinfo::System) -> u64 {
    sys.total_memory()
}

/// Relies on sysinfo::System::uptime: seconds since boot.
#[verifier::external_body]
pub(crate) fn uptime_secs() -> u64 {
    sysinfo::System::uptime()
}

/// Relies on sysinfo::System::processes: one entry per visible process,
/// in no particular order.
#[verifier::external_body]
pub(crate) fn sys_processes<'a>(sys: &'a sysinfo::System) -> Vec<&'a sysinfo::Process> {
    sys.processes().values().collect()
}

/// Relies on sysinfo::Process::disk_usage: the process's lifetime
/// cumulative (read, written) byte totals.
#[verifier::external_body]
pub(crate) fn process_disk_totals(p: &sysinfo::Process) -> (u64, u64) {
    let du = p.disk_usage();
    (du.total_read_bytes, du.total_written_bytes)
}

/// Relies on sysinfo::Networks::new_with_refreshed_list: the interface
/// list, read once.
#[verifier::external_body]
pub(crate) fn networks_new() -> sysinfo::Networks {
    sysinfo::Networks::new_with_refreshed_list()
}

/// Relies on sysinfo::Networks::refresh: re-reads interface counters,
/// dropping interfaces that disappeared.
#[verifier::external_body]
pub(crate) fn networks_refresh(networks: &mut sysinfo::Networks) {
    networks.refresh(true);
}

/// Relies on sysinfo::Networks::list: one entry per interface, in no
/// particular order.
#[verifier::external_body]
pub(crate) fn networks_list<'a>(networks: &'a sysinfo::Networks) -> Vec<&'a sysinfo::NetworkData> {
    networks.list().values().collect()
}

/// Relies on sysinfo::NetworkData::total_received: cumulative bytes
/// received on the interface.
#[verifier::external_body]
pub(crate) fn net_total_received(data: &sysinfo::NetworkData) -> u64 {
    data.total_received()
}

/// Relies on sysinfo::NetworkData::total_transmitted: cumulative bytes
/// transmitted on the interface.
#[verifier::external_body]
pub(crate) fn net_total_transmitted(data: &sysinfo::NetworkData) -> u64 {
    data.total_transmitted()
}

/// Relies on nvml_wrapper::Nvml::init: a handle to the GPU telemetry
/// library, or None where it is absent.
#[verifier::external_body]
pub(crate) fn nvml_init() -> Option<nvml_wrapper::Nvml> {
    nvml_wrapper::Nvml::init().ok()
}

/// Relies on nvml_wrapper::Nvml::device_count: how many devices the
/// library sees.
#[verifier::external_body]
pub(crate) fn nvml_device_count(nvml: &nvml_wrapper::Nvml) -> Option<u32> {
    nvml.device_count().ok()
}

/// Relies on nvml_wrapper::Nvml::device_by_index: a handle to one
/// device, or None if it cannot be reached.
#[verifier::external_body]
pub(crate) fn nvml_device<'a>(nvml: &'a nvml_wrapper::Nvml, index: u32) -> Option<
    nvml_wrapper::Device<'a>,
> {
    nvml.device_by_index(index).ok()
}

/// Relies on nvml_wrapper::Device::utilization_rates: the device's
/// (core, memory) utilization percentages over the last sample period.
#[verifier::external_body]
pub(crate) fn device_utilization(device: &nvml_wrapper::Device<'_>) -> Option<(u32, u32)> {
    device.utilization_rates().ok().map(|u| (u.gpu, u.memory))
}

/// Relies on nvml_wrapper::Device::temperature: the die temperature in
/// degrees Celsius.
#[verifier::external_body]
pub(crate) fn device_temperature(device: &nvml_wrapper::Device<'_>) -> Option<u32> {
    device.temperature(nvml_wrapper::enum_wrappers::device::TemperatureSensor::Gpu).ok()
}

/// Relies on nvml_wrapper::Device::memory_info: the installed device
/// memory in bytes.
#[verifier::external_body]
pub(crate) fn device_memory_total(device: &nvml_wrapper::Device<'_>) -> Option<u64> {
    device.memory_info().ok().map(|m| m.total)
}

/// Relies on nvml_wrapper::Device::name: the device's product name.
#[verifier::external_body]
pub(crate) fn device_name(device: &nvml_wrapper::Device<'_>) -> Option<String> {
    device.name().ok()
}

/// Relies on raw_cpuid::CpuId::get_l1_cache_and_tlb_info: the L1 data
/// cache size in KB, absent where the architecture does not report it.
#[verifier::external_body]
pub(crate) fn l1_dcache_kb() -> Option<u8> {
    raw_cpuid::CpuId::new().get_l1_cache_and_tlb_info().map(|info| info.dcache_size())
}

/// Relies on raw_cpuid::CpuId::get_l2_l3_cache_and_tlb_info: the L2
/// cache size in KB and the L3 cache size range field (512 KB units),
/// absent where the architecture does not report them.
#[verifier::external_body]
pub(crate) fn l2_l3_cache_kb() -> Option<(u16, u16)> {
    raw_cpuid::CpuId::new().get_l2_l3_cache_and_tlb_info().map(
        |info| (info.l2cache_size(), info.l3cache_size()),
    )
}

/// Relies on std::time::Instant::now: a reading of the monotonic clock.
#[verifier::external_body]
pub(crate) fn instant_now() -> std::time::Instant {
    std::time::Instant::now()
}

/// Relies on std::time::Instant::duration_since: the wall time from
/// `earlier` to `now` in whole milliseconds (zero if `earlier` is not
/// earlier).
#[verifier::external_body]
pub(crate) fn millis_since(earlier: &std::time::Instant, now: &std::time::Instant) -> u64 {
    now.duration_since(*earlier).as_millis() as u64
}

} // verus!
