//! The collector: orchestrates every probe once per tick, combines the
//! readings into one snapshot, derives the network rate from the
//! previous tick's counters, and appends the snapshot to the history.
//!
//! Probe readings depend on the machine and the moment, so nothing is
//! promised about their values; everything computed from them — the
//! saturating counter sums, the rate derivation, the history update —
//! is verified for every value the probes could hand back.

use vstd::prelude::*;

use crate::history::History;
use crate::history::spec_push;
use crate::probes;
use crate::rate::RateState;
use crate::sums::sum_counter_pairs;
use crate::rate::advance_rate;
use crate::stats::CpuCore;
use crate::stats::Disk;
use crate::stats::Gpu;
use crate::stats::InfoView;
use crate::stats::SnapshotView;
use crate::stats::SystemInfo;
use crate::stats::SystemUtilization;

verus! {

/// Default retention: one day of samples at one per second.
pub const DEFAULT_RETENTION: usize = 86400;

/// One reading per core, converted to the crate's own core type.
fn cpus_from(cores: &[sysinfo::Cpu]) -> (r: Vec<CpuCore>)
    ensures
        r@.len() == cores@.len(),
{
    let mut out: Vec<CpuCore> = Vec::new();
    let mut i: usize = 0;
    while i < cores.len()
        invariant
            i <= cores@.len(),
            out@.len() == i,
        decreases cores@.len() - i,
    {
        let core = vstd::slice::slice_index_get(cores, i);
        out.push(
            CpuCore {
                usage: probes::cpu_usage_percent(core),
                freq: probes::cpu_frequency_mhz(core),
            },
        );
        i = i + 1;
    }
    out
}

/// One lifetime (read, written) pair per visible process.
fn process_disk_pairs(procs: &Vec<&sysinfo::Process>) -> (r: Vec<(u64, u64)>)
    ensures
        r@.len() == procs@.len(),
{
    let mut out: Vec<(u64, u64)> = Vec::new();
    let mut i: usize = 0;
    while i < procs.len()
        invariant
            i <= procs@.len(),
            out@.len() == i,
        decreases procs@.len() - i,
    {
        out.push(probes::process_disk_totals(procs[i]));
        i = i + 1;
    }
    out
}

/// One cumulative (received, transmitted) pair per interface.
fn network_pairs(interfaces: &Vec<&sysinfo::NetworkData>) -> (r: Vec<(u64, u64)>)
    ensures
        r@.len() == interfaces@.len(),
{
    let mut out: Vec<(u64, u64)> = Vec::new();
    let mut i: usize = 0;
    while i < interfaces.len()
        invariant
            i <= interfaces@.len(),
            out@.len() == i,
        decreases interfaces@.len() - i,
    {
        out.push(
            (probes::net_total_received(interfaces[i]), probes::net_total_transmitted(
                interfaces[i],
            )),
        );
        i = i + 1;
    }
    out
}

/// The reading assembled from one device's probe results: each reading
/// that failed is zero. In particular a device that could not be
/// reached at all (every probe `None`) reads as all zeros.
pub open spec fn spec_gpu_reading(
    utilization: Option<(u32, u32)>,
    temperature: Option<u32>,
    memory_total: Option<u64>,
) -> Gpu {
    Gpu {
        usage: match utilization {
            Some(pair) => pair.0,
            None => 0,
        },
        mem: match utilization {
            Some(pair) => pair.1,
            None => 0,
        },
        max_mem: match memory_total {
            Some(total) => total,
            None => 0,
        },
        temp: match temperature {
            Some(t) => t,
            None => 0,
        },
    }
}

/// Combines one device's probe results into its reading, substituting
/// zero for each reading that failed: a per-device probe failure
/// degrades that reading only and never fails the tick.
pub fn gpu_reading(
    utilization: Option<(u32, u32)>,
    temperature: Option<u32>,
    memory_total: Option<u64>,
) -> (g: Gpu)
    ensures
        g == spec_gpu_reading(utilization, temperature, memory_total),
{
    let (usage, mem) = match utilization {
        Some(pair) => pair,
        None => (0, 0),
    };
    let temp = match temperature {
        Some(t) => t,
        None => 0,
    };
    let max_mem = match memory_total {
        Some(total) => total,
        None => 0,
    };
    Gpu { usage, mem, max_mem, temp }
}

/// One reading per GPU index below `count`, each assembled by
/// `gpu_reading`: a device or field that cannot be read contributes
/// zero for that reading only; the tick carries on.
fn collect_gpus(nvml: &nvml_wrapper::Nvml, count: u32) -> (r: Vec<Gpu>)
    ensures
        r@.len() == count,
{
    let mut out: Vec<Gpu> = Vec::new();
    let mut i: u32 = 0;
    while i < count
        invariant
            i <= count,
            out@.len() == i,
        decreases count - i,
    {
        let gpu = match probes::nvml_device(nvml, i) {
            Some(device) => gpu_reading(
                probes::device_utilization(&device),
                probes::device_temperature(&device),
                probes::device_memory_total(&device),
            ),
            None => gpu_reading(None, None, None),
        };
        out.push(gpu);
        i = i + 1;
    }
    out
}

/// One product name per GPU index below `count`; an unreachable device
/// gets an empty name.
fn collect_gpu_names(nvml: &nvml_wrapper::Nvml, count: u32) -> (r: Vec<String>)
    ensures
        r@.len() == count,
{
    let mut out: Vec<String> = Vec::new();
    let mut i: u32 = 0;
    while i < count
        invariant
            i <= count,
            out@.len() == i,
        decreases count - i,
    {
        let name = match probes::nvml_device(nvml, i) {
            Some(device) => match probes::device_name(&device) {
                Some(n) => n,
                None => String::new(),
            },
            None => String::new(),
        };
        out.push(name);
        i = i + 1;
    }
    out
}

/// The live monitor: the probe handles, the static system description,
/// the rate state, and the history of snapshots.
pub struct SystemMonitor {
    nvml: Option<nvml_wrapper::Nvml>,
    sys: sysinfo::System,
    networks: sysinfo::Networks,
    last_update: std::time::Instant,
    rate: RateState,
    sys_info: SystemInfo,
    history: History,
}

impl SystemMonitor {
    /// The buffered snapshots, oldest first.
    pub closed spec fn snapshots(&self) -> Seq<SnapshotView> {
        self.history.snapshots()
    }

    /// The retention capacity of the history.
    pub closed spec fn retention(&self) -> nat {
        self.history.spec_capacity()
    }

    /// How many samples have been taken since startup.
    pub closed spec fn ticks(&self) -> nat {
        self.history.next_tick()
    }

    /// The static system description, fixed at construction.
    pub closed spec fn info(&self) -> InfoView {
        self.sys_info@
    }

    /// The history is bounded and the description is consistent: one
    /// name per GPU.
    pub closed spec fn wf(&self) -> bool {
        &&& self.history.wf()
        &&& self.sys_info@.gpu_names.len() == self.sys_info@.gpu_count
        &&& (self.nvml is None ==> self.sys_info@.gpu_count == 0)
    }

    /// A well-formed monitor describes one name per GPU.
    pub proof fn lemma_wf_info(&self)
        requires
            self.wf(),
        ensures
            self.info().gpu_names.len() == self.info().gpu_count,
    {
    }

    /// Queries the hardware once for the static description and sets up
    /// an empty history with the given retention capacity.
    pub fn new(retention: usize) -> (m: SystemMonitor)
        requires
            retention >= 1,
        ensures
            m.wf(),
            m.retention() == retention,
            m.snapshots() == Seq::<SnapshotView>::empty(),
            m.ticks() == 0,
            m.info().gpu_names.len() == m.info().gpu_count,
    {
        let sys = probes::sys_new_all();
        let cores = probes::sys_cpus(&sys);
        let cpu_brand = if cores.len() > 0 {
            probes::cpu_brand(vstd::slice::slice_index_get(cores, 0))
        } else {
            String::new()
        };
        let cpu_core_count = #[verifier::truncate] (cores.len() as u32);
        let max_mem = probes::total_memory(&sys);
        let nvml = probes::nvml_init();
        let (gpu_count, gpu_names): (u32, Vec<String>) = match &nvml {
            Some(handle) => {
                let count = match probes::nvml_device_count(handle) {
                    Some(c) => c,
                    None => 0,
                };
                (count, collect_gpu_names(handle, count))
            },
            None => (0, Vec::new()),
        };
        let cache_l1 = probes::l1_dcache_kb();
        let (cache_l2, cache_l3): (Option<u16>, Option<u16>) = match probes::l2_l3_cache_kb() {
            Some((l2, l3)) => (Some(l2), Some(l3)),
            None => (None, None),
        };
        let sys_info = SystemInfo {
            cpu_brand,
            cpu_core_count,
            cache_l1,
            cache_l2,
            cache_l3,
            max_mem,
            gpu_count,
            gpu_names,
        };
        SystemMonitor {
            nvml,
            sys,
            networks: probes::networks_new(),
            last_update: probes::instant_now(),
            rate: RateState::initial(),
            sys_info,
            history: History::new(retention),
        }
    }

    /// The static system description.
    pub fn sys_info_ref(&self) -> (r: &SystemInfo)
        ensures
            r@ == self.info(),
    {
        &self.sys_info
    }

    /// Read access to the history, for window queries.
    pub fn history_ref(&self) -> (h: &History)
        ensures
            h.snapshots() == self.snapshots(),
            h.spec_capacity() == self.retention(),
            self.wf() ==> h.wf(),
    {
        &self.history
    }

    /// One tick: refreshes every probe, combines the readings into a
    /// snapshot, derives the network rate, appends the snapshot to the
    /// history (evicting the oldest entry once the retention capacity
    /// is reached) and returns it.
    ///
    /// Exactly one snapshot is appended per call, carrying the next
    /// logical tick, so the history stays strictly chronologically
    /// ordered however the calls are interleaved with reads.
    pub fn sample(&mut self) -> (snap: SystemUtilization)
        requires
            old(self).wf(),
        ensures
            final(self).wf(),
            final(self).retention() == old(self).retention(),
            final(self).info() == old(self).info(),
            final(self).snapshots() == spec_push(
                old(self).snapshots(),
                snap@,
                old(self).retention(),
            ),
            final(self).ticks() == old(self).ticks() + 1,
            snap@.gpus.len() == old(self).info().gpu_count,
    {
        probes::refresh_cpu(&mut self.sys);
        probes::refresh_processes(&mut self.sys);
        probes::refresh_memory(&mut self.sys);

        let cpus = cpus_from(probes::sys_cpus(&self.sys));
        let procs = probes::sys_processes(&self.sys);
        let processes = #[verifier::truncate] (procs.len() as u32);
        let mem = probes::used_memory(&self.sys);
        let mem_max = probes::total_memory(&self.sys);
        let up_time = probes::uptime_secs();

        let gpus = match &self.nvml {
            Some(handle) => collect_gpus(handle, self.sys_info.gpu_count),
            None => Vec::new(),
        };

        let disk_pairs = process_disk_pairs(&procs);
        let (read_bytes, writen_bytes) = sum_counter_pairs(&disk_pairs);
        let disk = Disk { read_bytes, writen_bytes };

        probes::networks_refresh(&mut self.networks);
        let net_pairs = network_pairs(&probes::networks_list(&self.networks));
        let (total_rx, total_tx) = sum_counter_pairs(&net_pairs);
        let now = probes::instant_now();
        let elapsed_ms = probes::millis_since(&self.last_update, &now);
        self.last_update = now;
        let (network, new_rate) = advance_rate(self.rate, total_rx, total_tx, elapsed_ms);
        self.rate = new_rate;

        let snap = SystemUtilization { cpus, mem, mem_max, disk, gpus, up_time, processes, network };
        let out = snap.clone();
        self.history.push(snap);
        out
    }
}

} // verus!
