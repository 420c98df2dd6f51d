use sysmon::history::History;
use sysmon::monitor::SystemMonitor;
use sysmon::monitor::gpu_reading;
use sysmon::rate::RateState;
use sysmon::rate::advance_rate;
use sysmon::state::SystemMonitorState;
use sysmon::stats::CpuCore;
use sysmon::stats::Disk;
use sysmon::stats::Gpu;
use sysmon::stats::Network;
use sysmon::stats::SystemUtilization;
use sysmon::window::window;

fn snap_with_mem(mem: u64) -> SystemUtilization {
    let mut s = SystemUtilization::default();
    s.mem = mem;
    s
}

#[test]
fn history_keeps_at_most_capacity_and_evicts_oldest_first() {
    let mut h = History::new(3);
    for mem in 1..=5u64 {
        h.push(snap_with_mem(mem));
        assert!(h.len() <= 3);
    }
    assert_eq!(3, h.len());
    // The two oldest snapshots (mem 1 and 2) were evicted first.
    assert_eq!(3, h.get(0).mem);
    assert_eq!(4, h.get(1).mem);
    assert_eq!(5, h.get(2).mem);
}

#[test]
fn history_below_capacity_keeps_everything() {
    let mut h = History::new(86400);
    for mem in 0..100u64 {
        h.push(snap_with_mem(mem));
    }
    assert_eq!(100, h.len());
    for i in 0..100usize {
        assert_eq!(i as u64, h.get(i).mem);
    }
}

#[test]
fn window_returns_single_sample_when_history_is_short() {
    // One available sample, stride 60 / 10 = 6: the query answers with
    // that sample rather than an empty series.
    let mut h = History::new(86400);
    h.push(snap_with_mem(42));
    let out = window(&h, 60, 10);
    assert_eq!(1, out.len());
    assert_eq!(42, out[0].mem);
}

#[test]
fn window_on_empty_history_is_empty() {
    let h = History::new(86400);
    let out = window(&h, 60, 10);
    assert_eq!(0, out.len());
}

#[test]
fn window_decimates_by_stride() {
    // 13 samples, stride 6: the oldest partial group (one sample) is
    // dropped and every sixth sample counted back from the most recent
    // one is kept, oldest first.
    let mut h = History::new(86400);
    for mem in 0..13u64 {
        h.push(snap_with_mem(mem));
    }
    let out = window(&h, 60, 10);
    assert_eq!(2, out.len());
    assert_eq!(6, out[0].mem);
    assert_eq!(12, out[1].mem);
}

#[test]
fn window_keeps_the_most_recent_sample() {
    // Whenever at least one stride of samples is available, the newest
    // sample anchors the selection.
    let mut h = History::new(86400);
    for mem in 0..3u64 {
        h.push(snap_with_mem(mem));
    }
    // stride = ceil(60 / 30) = 2; of 3 samples the oldest is dropped
    // and every second one counted back from the newest is kept.
    let out = window(&h, 60, 30);
    assert_eq!(1, out.len());
    assert_eq!(2, out[0].mem);
}

#[test]
fn gpu_reading_substitutes_zero_for_failed_probes() {
    // An unreachable device reads as all zeros.
    assert_eq!(Gpu { usage: 0, mem: 0, max_mem: 0, temp: 0 }, gpu_reading(None, None, None));
    // A failed field is zero; the readable fields keep their values.
    assert_eq!(
        Gpu { usage: 50, mem: 40, max_mem: 0, temp: 61 },
        gpu_reading(Some((50, 40)), Some(61), None)
    );
    assert_eq!(
        Gpu { usage: 0, mem: 0, max_mem: 8192, temp: 0 },
        gpu_reading(None, None, Some(8192))
    );
}

#[test]
fn window_never_exceeds_budget() {
    let mut h = History::new(86400);
    for mem in 0..500u64 {
        h.push(snap_with_mem(mem));
        let out = window(&h, 60, 10);
        assert!(out.len() <= 10);
        let wide = window(&h, 300, 60);
        assert!(wide.len() <= 60);
    }
}

#[test]
fn window_preserves_chronological_order() {
    let mut h = History::new(86400);
    for mem in 0..200u64 {
        h.push(snap_with_mem(mem));
    }
    let out = window(&h, 120, 30);
    assert!(out.len() >= 2);
    for pair in out.windows(2) {
        assert!(pair[0].mem < pair[1].mem);
    }
}

#[test]
fn series_totals_sum_and_saturate() {
    let mut a = snap_with_mem(0);
    a.network = Network { down: 10, up: 1 };
    a.disk = Disk { read_bytes: 100, writen_bytes: 7 };
    let mut b = snap_with_mem(0);
    b.network = Network { down: 32, up: 2 };
    b.disk = Disk { read_bytes: u64::MAX, writen_bytes: 8 };
    let series = vec![a, b];
    assert_eq!((42, 3), sysmon::window::network_totals(&series));
    assert_eq!((u64::MAX, 15), sysmon::window::disk_totals(&series));
}

#[test]
fn rate_divides_growth_by_elapsed_time() {
    let st0 = RateState::initial();
    let (net, st1) = advance_rate(st0, 3000, 1000, 500);
    assert_eq!(6000, net.down);
    assert_eq!(2000, net.up);
    assert_eq!(3000, st1.total_rx);
    assert_eq!(1000, st1.total_tx);
}

#[test]
fn rate_with_zero_elapsed_retains_previous_rates() {
    let st0 = RateState::initial();
    let (net1, st1) = advance_rate(st0, 3000, 1000, 500);
    let (net2, st2) = advance_rate(st1, 9000, 9000, 0);
    assert_eq!(net1, net2);
    // The counters still advance, so the next tick measures fresh growth.
    assert_eq!(9000, st2.total_rx);
    assert_eq!(9000, st2.total_tx);
}

#[test]
fn rate_is_finite_even_for_huge_growth() {
    let st0 = RateState::initial();
    let (net, _) = advance_rate(st0, u64::MAX, u64::MAX, 1);
    assert_eq!(u64::MAX, net.down);
    assert_eq!(u64::MAX, net.up);
}

#[test]
fn rate_treats_shrunken_counters_as_no_growth() {
    let st0 = RateState { total_rx: 1000, total_tx: 1000, last: Network { down: 7, up: 7 } };
    let (net, _) = advance_rate(st0, 500, 400, 1000);
    assert_eq!(0, net.down);
    assert_eq!(0, net.up);
}

#[test]
fn add_sums_fields_pairwise() {
    let mut a = SystemUtilization::default();
    a.cpus = vec![CpuCore { usage: 10, freq: 1000 }, CpuCore { usage: 20, freq: 2000 }];
    a.mem = 100;
    a.mem_max = 1000;
    a.disk = Disk { read_bytes: 5, writen_bytes: 6 };
    a.gpus = vec![Gpu { usage: 1, mem: 2, max_mem: 3, temp: 4 }];
    a.up_time = 50;
    a.processes = 7;
    a.network = Network { down: 8, up: 9 };

    let mut b = SystemUtilization::default();
    b.cpus = vec![CpuCore { usage: 5, freq: 500 }];
    b.mem = 11;
    b.mem_max = 22;
    b.disk = Disk { read_bytes: 33, writen_bytes: 44 };
    b.gpus = vec![Gpu { usage: 10, mem: 20, max_mem: 30, temp: 40 }];
    b.up_time = 55;
    b.processes = 66;
    b.network = Network { down: 77, up: 88 };

    let r = a.add(b);
    // The core lists are paired up to the shorter length.
    assert_eq!(1, r.cpus.len());
    assert_eq!(CpuCore { usage: 15, freq: 1500 }, r.cpus[0]);
    assert_eq!(111, r.mem);
    assert_eq!(1022, r.mem_max);
    assert_eq!(Disk { read_bytes: 38, writen_bytes: 50 }, r.disk);
    assert_eq!(1, r.gpus.len());
    assert_eq!(Gpu { usage: 11, mem: 22, max_mem: 33, temp: 44 }, r.gpus[0]);
    assert_eq!(105, r.up_time);
    assert_eq!(73, r.processes);
    assert_eq!(Network { down: 85, up: 97 }, r.network);
}

#[test]
fn sum_folds_from_the_zero_snapshot() {
    let mut a = snap_with_mem(10);
    a.cpus = vec![CpuCore { usage: 50, freq: 1000 }];
    a.processes = 3;
    let mut b = snap_with_mem(20);
    b.cpus = vec![CpuCore { usage: 60, freq: 2000 }];
    b.processes = 4;
    let r = SystemUtilization::sum(vec![a, b]);
    assert_eq!(30, r.mem);
    assert_eq!(7, r.processes);
    // Folding from the zero snapshot truncates the core list away.
    assert_eq!(0, r.cpus.len());
}

#[test]
fn monitor_samples_and_fills_history() {
    let mut monitor = SystemMonitor::new(86400);
    let snap = monitor.sample();
    // This machine has cores and memory; the probes must see them.
    assert!(!snap.cpus.is_empty());
    assert!(snap.mem_max > 0);
    assert_eq!(snap.gpus.len() as u32, monitor.sys_info_ref().gpu_count);
    let h = monitor.history_ref();
    assert_eq!(1, h.len());
    assert_eq!(snap.mem, h.get(0).mem);
}

#[test]
fn guarded_state_serves_stats_info_and_windows() {
    let state = SystemMonitorState::new(86400);
    let info = state.get_sys_info();
    assert_eq!(info.gpu_names.len() as u32, info.gpu_count);
    assert!(info.cpu_core_count > 0);
    assert!(info.max_mem > 0);

    let first = state.get_stats();
    let second = state.get_stats();
    assert_eq!(first.cpus.len(), second.cpus.len());
    assert_eq!(info.cpu_core_count as usize, first.cpus.len());
    assert_eq!(info.gpu_count as usize, first.gpus.len());

    // The static description is computed once: every call returns the
    // same value.
    let again = state.get_sys_info();
    assert_eq!(info.cpu_brand, again.cpu_brand);
    assert_eq!(info.cpu_core_count, again.cpu_core_count);
    assert_eq!(info.cache_l1, again.cache_l1);
    assert_eq!(info.cache_l2, again.cache_l2);
    assert_eq!(info.cache_l3, again.cache_l3);
    assert_eq!(info.max_mem, again.max_mem);
    assert_eq!(info.gpu_count, again.gpu_count);
    assert_eq!(info.gpu_names, again.gpu_names);

    // Two samples are fewer than one stride of 6, so the window query
    // falls back to the single oldest sample.
    let series = state.window(60, 10);
    assert_eq!(1, series.len());
}
