//! The data model: one tick's snapshot of hardware readings and the
//! static description of the machine, sampled once at startup.

use vstd::prelude::*;

verus! {

/// One logical core's reading: usage in whole percent and frequency in
/// MHz, as the probe reports them.
#[derive(Clone, Copy, Debug, PartialEq, Eq, Structural)]
pub struct CpuCore {
    pub usage: u32,
    pub freq: u64,
}

/// One GPU's reading; a device that could not be read contributes zeros.
#[derive(Clone, Copy, Debug, PartialEq, Eq, Structural)]
pub struct Gpu {
    pub usage: u32,
    pub mem: u32,
    pub max_mem: u64,
    pub temp: u32,
}

/// Disk counters: bytes read and written, summed over all visible
/// processes' lifetime totals (a cumulative figure, not a rate).
#[derive(Clone, Copy, Debug, PartialEq, Eq, Structural)]
pub struct Disk {
    /// Read bytes
    pub read_bytes: u64,
    /// Written bytes
    pub writen_bytes: u64,
}

/// Network throughput in bytes per second, derived from cumulative
/// interface counters and elapsed wall time.
#[derive(Clone, Copy, Debug, PartialEq, Eq, Structural)]
pub struct Network {
    /// Download speed in bytes per second
    pub down: u64,
    /// Upload speed in bytes per second
    pub up: u64,
}

/// The mathematical value of a snapshot: every field as a plain value,
/// with the per-core and per-GPU lists as sequences.
#[verifier::ext_equal]
pub ghost struct SnapshotView {
    pub cpus: Seq<CpuCore>,
    pub mem: u64,
    pub mem_max: u64,
    pub disk: Disk,
    pub gpus: Seq<Gpu>,
    pub up_time: u64,
    pub processes: u32,
    pub network: Network,
}

/// One tick's complete set of hardware and process readings, immutable
/// once produced.
#[derive(Debug)]
pub struct SystemUtilization {
    pub cpus: Vec<CpuCore>,
    pub mem: u64,
    pub mem_max: u64,
    pub disk: Disk,
    pub gpus: Vec<Gpu>,
    /// System uptime in seconds.
    pub up_time: u64,
    pub processes: u32,
    pub network: Network,
}

impl View for SystemUtilization {
    type V = SnapshotView;

    open spec fn view(&self) -> SnapshotView {
        SnapshotView {
            cpus: self.cpus@,
            mem: self.mem,
            mem_max: self.mem_max,
            disk: self.disk,
            gpus: self.gpus@,
            up_time: self.up_time,
            processes: self.processes,
            network: self.network,
        }
    }
}

impl DeepView for SystemUtilization {
    type V = SnapshotView;

    open spec fn deep_view(&self) -> SnapshotView {
        self.view()
    }
}

impl Clone for SystemUtilization {
    fn clone(&self) -> (r: Self)
        ensures
            r@ == self@,
    {
        let r = SystemUtilization {
            cpus: vstd::slice::slice_to_vec(self.cpus.as_slice()),
            mem: self.mem,
            mem_max: self.mem_max,
            disk: self.disk,
            gpus: vstd::slice::slice_to_vec(self.gpus.as_slice()),
            up_time: self.up_time,
            processes: self.processes,
            network: self.network,
        };
        proof {
            assert(r@ =~= self@);
        }
        r
    }
}

impl Default for SystemUtilization {
    fn default() -> (r: Self)
        ensures
            r@ == spec_default_snapshot(),
    {
        SystemUtilization {
            cpus: Vec::new(),
            mem: 0,
            mem_max: 0,
            disk: Disk { read_bytes: 0, writen_bytes: 0 },
            gpus: Vec::new(),
            up_time: 0,
            processes: 0,
            network: Network { down: 0, up: 0 },
        }
    }
}

/// The all-zero snapshot that `Default` produces.
pub open spec fn spec_default_snapshot() -> SnapshotView {
    SnapshotView {
        cpus: Seq::empty(),
        mem: 0,
        mem_max: 0,
        disk: Disk { read_bytes: 0, writen_bytes: 0 },
        gpus: Seq::empty(),
        up_time: 0,
        processes: 0,
        network: Network { down: 0, up: 0 },
    }
}

/// Whether two snapshots can be added field by field without any sum
/// overflowing its machine type. Core and GPU lists are combined
/// pairwise up to the shorter length.
pub open spec fn can_add(a: SnapshotView, b: SnapshotView) -> bool {
    let nc = vstd::math::min(a.cpus.len() as int, b.cpus.len() as int);
    let ng = vstd::math::min(a.gpus.len() as int, b.gpus.len() as int);
    &&& a.mem + b.mem <= u64::MAX
    &&& a.mem_max + b.mem_max <= u64::MAX
    &&& a.disk.read_bytes + b.disk.read_bytes <= u64::MAX
    &&& a.disk.writen_bytes + b.disk.writen_bytes <= u64::MAX
    &&& a.up_time + b.up_time <= u64::MAX
    &&& a.processes + b.processes <= u32::MAX
    &&& a.network.down + b.network.down <= u64::MAX
    &&& a.network.up + b.network.up <= u64::MAX
    &&& forall|i: int|
        0 <= i < nc ==> (#[trigger] a.cpus[i]).usage + b.cpus[i].usage <= u32::MAX
            && a.cpus[i].freq + b.cpus[i].freq <= u64::MAX
    &&& forall|i: int|
        0 <= i < ng ==> (#[trigger] a.gpus[i]).usage + b.gpus[i].usage <= u32::MAX
            && a.gpus[i].mem + b.gpus[i].mem <= u32::MAX && a.gpus[i].max_mem + b.gpus[i].max_mem
            <= u64::MAX && a.gpus[i].temp + b.gpus[i].temp <= u32::MAX
}

/// The field-wise sum of two snapshots; the core and GPU lists are
/// added element by element, truncated to the shorter list.
pub open spec fn spec_add(a: SnapshotView, b: SnapshotView) -> SnapshotView {
    let nc = vstd::math::min(a.cpus.len() as int, b.cpus.len() as int);
    let ng = vstd::math::min(a.gpus.len() as int, b.gpus.len() as int);
    SnapshotView {
        cpus: Seq::new(
            nc as nat,
            |i: int|
                CpuCore {
                    usage: (a.cpus[i].usage + b.cpus[i].usage) as u32,
                    freq: (a.cpus[i].freq + b.cpus[i].freq) as u64,
                },
        ),
        mem: (a.mem + b.mem) as u64,
        mem_max: (a.mem_max + b.mem_max) as u64,
        disk: Disk {
            read_bytes: (a.disk.read_bytes + b.disk.read_bytes) as u64,
            writen_bytes: (a.disk.writen_bytes + b.disk.writen_bytes) as u64,
        },
        gpus: Seq::new(
            ng as nat,
            |i: int|
                Gpu {
                    usage: (a.gpus[i].usage + b.gpus[i].usage) as u32,
                    mem: (a.gpus[i].mem + b.gpus[i].mem) as u32,
                    max_mem: (a.gpus[i].max_mem + b.gpus[i].max_mem) as u64,
                    temp: (a.gpus[i].temp + b.gpus[i].temp) as u32,
                },
        ),
        up_time: (a.up_time + b.up_time) as u64,
        processes: (a.processes + b.processes) as u32,
        network: Network {
            down: (a.network.down + b.network.down) as u64,
            up: (a.network.up + b.network.up) as u64,
        },
    }
}

impl SystemUtilization {
    /// Field-wise sum of two snapshots, pairing the per-core and
    /// per-GPU lists element by element up to the shorter length.
    pub fn add(self, rhs: Self) -> (r: Self)
        requires
            can_add(self@, rhs@),
        ensures
            r@ == spec_add(self@, rhs@),
    {
        let nc = if self.cpus.len() <= rhs.cpus.len() {
            self.cpus.len()
        } else {
            rhs.cpus.len()
        };
        let mut cpus: Vec<CpuCore> = Vec::new();
        let mut i: usize = 0;
        while i < nc
            invariant
                i <= nc,
                nc == vstd::math::min(self.cpus.len() as int, rhs.cpus.len() as int),
                can_add(self@, rhs@),
                cpus@ =~= spec_add(self@, rhs@).cpus.take(i as int),
            decreases nc - i,
        {
            cpus.push(
                CpuCore {
                    usage: self.cpus[i].usage + rhs.cpus[i].usage,
                    freq: self.cpus[i].freq + rhs.cpus[i].freq,
                },
            );
            i = i + 1;
        }
        let ng = if self.gpus.len() <= rhs.gpus.len() {
            self.gpus.len()
        } else {
            rhs.gpus.len()
        };
        let mut gpus: Vec<Gpu> = Vec::new();
        let mut j: usize = 0;
        while j < ng
            invariant
                j <= ng,
                ng == vstd::math::min(self.gpus.len() as int, rhs.gpus.len() as int),
                can_add(self@, rhs@),
                gpus@ =~= spec_add(self@, rhs@).gpus.take(j as int),
            decreases ng - j,
        {
            gpus.push(
                Gpu {
                    usage: self.gpus[j].usage + rhs.gpus[j].usage,
                    mem: self.gpus[j].mem + rhs.gpus[j].mem,
                    max_mem: self.gpus[j].max_mem + rhs.gpus[j].max_mem,
                    temp: self.gpus[j].temp + rhs.gpus[j].temp,
                },
            );
            j = j + 1;
        }
        let r = SystemUtilization {
            cpus,
            mem: self.mem + rhs.mem,
            mem_max: self.mem_max + rhs.mem_max,
            disk: Disk {
                read_bytes: self.disk.read_bytes + rhs.disk.read_bytes,
                writen_bytes: self.disk.writen_bytes + rhs.disk.writen_bytes,
            },
            gpus,
            up_time: self.up_time + rhs.up_time,
            processes: self.processes + rhs.processes,
            network: Network {
                down: self.network.down + rhs.network.down,
                up: self.network.up + rhs.network.up,
            },
        };
        proof {
            assert(r@.cpus =~= spec_add(self@, rhs@).cpus);
            assert(r@.gpus =~= spec_add(self@, rhs@).gpus);
            assert(r@ =~= spec_add(self@, rhs@));
        }
        r
    }
}

/// The left-to-right fold of `spec_add` over `s`, starting from the
/// zero snapshot.
pub open spec fn spec_sum(s: Seq<SnapshotView>) -> SnapshotView
    decreases s.len(),
{
    if s.len() == 0 {
        spec_default_snapshot()
    } else {
        spec_add(spec_sum(s.drop_last()), s.last())
    }
}

/// Whether `s` can be folded left to right without any partial sum
/// overflowing.
pub open spec fn can_sum(s: Seq<SnapshotView>) -> bool
    decreases s.len(),
{
    if s.len() == 0 {
        true
    } else {
        can_sum(s.drop_last()) && can_add(spec_sum(s.drop_last()), s.last())
    }
}

/// A summable sequence stays summable when cut short.
proof fn lemma_can_sum_prefix(s: Seq<SnapshotView>, i: int)
    requires
        can_sum(s),
        0 <= i <= s.len(),
    ensures
        can_sum(s.take(i)),
    decreases s.len() - i,
{
    if i == s.len() {
        assert(s.take(i) =~= s);
    } else {
        lemma_can_sum_prefix(s, i + 1);
        assert(s.take(i + 1).drop_last() =~= s.take(i));
    }
}

impl SystemUtilization {
    /// Folds a list of snapshots into their field-wise sum, left to
    /// right, starting from the zero snapshot (so the per-core and
    /// per-GPU lists of the result are empty, as folding from the zero
    /// snapshot truncates them away).
    pub fn sum(items: Vec<SystemUtilization>) -> (r: Self)
        requires
            can_sum(items.deep_view()),
        ensures
            r@ == spec_sum(items.deep_view()),
    {
        let ghost s = items.deep_view();
        let mut acc = SystemUtilization::default();
        let mut i: usize = 0;
        while i < items.len()
            invariant
                i <= items@.len(),
                s == items.deep_view(),
                can_sum(s),
                acc@ == spec_sum(s.take(i as int)),
            decreases items@.len() - i,
        {
            proof {
                lemma_can_sum_prefix(s, i + 1);
                assert(s.take(i + 1).drop_last() =~= s.take(i as int));
                assert(s.take(i + 1).last() == items@[i as int]@);
            }
            acc = acc.add(items[i].clone());
            i = i + 1;
        }
        proof {
            assert(s.take(s.len() as int) =~= s);
        }
        acc
    }
}

/// The mathematical value of the static system description.
#[verifier::ext_equal]
pub ghost struct InfoView {
    pub cpu_brand: Seq<char>,
    pub cpu_core_count: u32,
    pub cache_l1: Option<u8>,
    pub cache_l2: Option<u16>,
    pub cache_l3: Option<u16>,
    pub max_mem: u64,
    pub gpu_count: u32,
    pub gpu_names: Seq<Seq<char>>,
}

/// Hardware identity, sampled once at process start and immutable
/// afterwards. Cache sizes are absent on architectures that do not
/// report them; that is not an error.
#[derive(Debug)]
pub struct SystemInfo {
    pub cpu_brand: String,
    pub cpu_core_count: u32,
    /// L1 data cache size in KB
    pub cache_l1: Option<u8>,
    pub cache_l2: Option<u16>,
    pub cache_l3: Option<u16>,
    pub max_mem: u64,
    pub gpu_count: u32,
    pub gpu_names: Vec<String>,
}

impl View for SystemInfo {
    type V = InfoView;

    open spec fn view(&self) -> InfoView {
        InfoView {
            cpu_brand: self.cpu_brand@,
            cpu_core_count: self.cpu_core_count,
            cache_l1: self.cache_l1,
            cache_l2: self.cache_l2,
            cache_l3: self.cache_l3,
            max_mem: self.max_mem,
            gpu_count: self.gpu_count,
            gpu_names: self.gpu_names.deep_view(),
        }
    }
}

/// Copies a list of names, preserving every character.
fn clone_names(v: &Vec<String>) -> (r: Vec<String>)
    ensures
        r.deep_view() == v.deep_view(),
{
    let mut r: Vec<String> = Vec::new();
    let mut i: usize = 0;
    while i < v.len()
        invariant
            i <= v.len(),
            r@.len() == i,
            forall|j: int| 0 <= j < i ==> (#[trigger] r@[j])@ == v@[j]@,
        decreases v.len() - i,
    {
        let s = v[i].clone();
        r.push(s);
        i = i + 1;
    }
    proof {
        assert(r.deep_view() =~~= v.deep_view());
    }
    r
}

impl Clone for SystemInfo {
    fn clone(&self) -> (r: Self)
        ensures
            r@ == self@,
    {
        let r = SystemInfo {
            cpu_brand: self.cpu_brand.clone(),
            cpu_core_count: self.cpu_core_count,
            cache_l1: self.cache_l1,
            cache_l2: self.cache_l2,
            cache_l3: self.cache_l3,
            max_mem: self.max_mem,
            gpu_count: self.gpu_count,
            gpu_names: clone_names(&self.gpu_names),
        };
        proof {
            assert(r@ =~= self@);
        }
        r
    }
}

} // verus!
