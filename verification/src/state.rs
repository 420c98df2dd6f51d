//! The guarded state: one exclusive-access wrapper around the live
//! monitor, so that sampling and history mutation are strictly
//! serialized and a reader can never observe a half-appended history.
//!
//! The lock is vstd's verified reader-writer lock. Its invariant pins,
//! besides the monitor's well-formedness, the static system description
//! and the retention capacity fixed at startup: every value any caller
//! can ever take out of the lock — concurrently or not — carries that
//! same description and a bounded, chronologically ordered history. The
//! verified critical sections cannot panic, so the lock cannot be
//! poisoned and access never degrades.

use vstd::prelude::*;
use vstd::rwlock::RwLock;
use vstd::rwlock::RwLockPredicate;

use crate::monitor::SystemMonitor;
use crate::stats::InfoView;
use crate::stats::SystemInfo;
use crate::stats::SystemUtilization;
use crate::window;

verus! {

/// The lock invariant: whatever is stored behind the lock is a
/// well-formed monitor with the startup description and the retention
/// capacity this predicate was created with.
pub ghost struct MonitorPred {
    pub info: InfoView,
    pub retention: nat,
}

impl RwLockPredicate<SystemMonitor> for MonitorPred {
    open spec fn inv(self, m: SystemMonitor) -> bool {
        &&& m.wf()
        &&& m.info() == self.info
        &&& m.retention() == self.retention
    }
}

/// The monitor behind its exclusion mechanism; the handle the rest of
/// the process shares.
pub struct SystemMonitorState {
    lock: RwLock<SystemMonitor, MonitorPred>,
}

impl SystemMonitorState {
    /// The static system description, fixed at startup; every value
    /// behind the lock carries it.
    pub closed spec fn info(&self) -> InfoView {
        self.lock.pred().info
    }

    /// The retention capacity of the history behind the lock.
    pub closed spec fn retention(&self) -> nat {
        self.lock.pred().retention
    }

    /// Probes the hardware once for the static description and starts
    /// with an empty history of the given retention capacity.
    pub fn new(retention: usize) -> (s: SystemMonitorState)
        requires
            retention >= 1,
        ensures
            s.retention() == retention,
            s.info().gpu_names.len() == s.info().gpu_count,
    {
        let monitor = SystemMonitor::new(retention);
        let ghost pred = MonitorPred { info: monitor.info(), retention: monitor.retention() };
        let lock = RwLock::new(monitor, Ghost(pred));
        SystemMonitorState { lock }
    }

    /// Takes a fresh sample: acquires exclusive access, runs one
    /// collector tick, appends the snapshot to the history and returns
    /// it. Concurrent calls are serialized, never interleaved, so each
    /// call appends exactly one snapshot under its own logical tick
    /// (see `SystemMonitor::sample` for the contract of one tick; the
    /// lock invariant pins the description, so the snapshot carries one
    /// GPU reading per device found at startup).
    pub fn get_stats(&self) -> (snap: SystemUtilization)
        ensures
            snap@.gpus.len() == self.info().gpu_count,
    {
        let (mut monitor, handle) = self.lock.acquire_write();
        let snap = monitor.sample();
        handle.release_write(monitor);
        snap
    }

    /// The static system description, computed once at startup: shared
    /// access, does not touch the collector state, and every call
    /// returns the same value.
    pub fn get_sys_info(&self) -> (r: SystemInfo)
        ensures
            r@ == self.info(),
            r@.gpu_names.len() == r@.gpu_count,
    {
        let handle = self.lock.acquire_read();
        let monitor = handle.borrow();
        proof {
            monitor.lemma_wf_info();
        }
        let info = monitor.sys_info_ref().clone();
        handle.release_read();
        info
    }

    /// A windowed, decimated read of the history under shared access:
    /// at most `budget` points spanning the `lookback` most recent
    /// samples (see `window::window` for the exact selection; which
    /// history is read cannot be spoken of here, since the lock's
    /// contents have no spec name outside a critical section).
    pub fn window(&self, lookback: usize, budget: usize) -> (out: Vec<SystemUtilization>)
        requires
            budget >= 1,
        ensures
            lookback >= budget ==> out@.len() <= budget,
    {
        let handle = self.lock.acquire_read();
        let h = handle.borrow().history_ref();
        let out = window::window(h, lookback, budget);
        proof {
            if lookback >= budget {
                window::lemma_window_within_budget(h.snapshots(), lookback as nat, budget as nat);
            }
        }
        handle.release_read();
        out
    }
}

} // verus!
