use sysmon::fmt::cpu_summary;
use sysmon::fmt::print_bytes;
use sysmon::fmt::print_secs;
use sysmon::fmt::u64_to_dec;
use sysmon::stats::CpuCore;

#[test]
fn print_bytes_test() {
    let test_cases = [
        (0, "0.0 B"),
        (1023, "1023.0 B"),
        (1024, "1.0 KiB"),
        (21_372_137, "20.4 MiB"),
        (2_137_213_721_372_137, "1943.8 TiB"),
    ];
    for (input, expected) in test_cases {
        assert_eq!(expected, print_bytes(input));
    }
}

#[test]
fn print_time_test() {
    let test_cases = [
        (0, "0 s"),
        (59, "59 s"),
        (60, "1 min"),
        (3 * 60, "3 min"),
        (3 * 60 + 1, "3 min"),
        (60, "1 min"),
        (5 * 60, "5 min"),
        (30 * 60, "30 min"),
        (3 * 60 * 60, "3 h"),
        (6 * 60 * 60, "6 h"),
        (12 * 60 * 60, "12 h"),
        (24 * 60 * 60, "24 h"),
    ];
    for (input, expected) in test_cases {
        assert_eq!(expected, print_secs(input));
    }
}

#[test]
fn print_bytes_boundaries() {
    // Just below one MiB the value stays in KiB and rounds up to the
    // divisor itself.
    assert_eq!("1024.0 KiB", print_bytes(1024 * 1024 - 1));
    // A unit boundary is promoted exactly at the divisor.
    assert_eq!("1.0 MiB", print_bytes(1024 * 1024));
    assert_eq!("1.0 GiB", print_bytes(1024 * 1024 * 1024));
    assert_eq!("1.0 TiB", print_bytes(1024u64.pow(4)));
    // No promotion past TiB, however large the count.
    assert_eq!("16777216.0 TiB", print_bytes(u64::MAX));
}

#[test]
fn print_bytes_rounds_ties_to_even() {
    // 1280 / 1024 = 1.25 exactly: the tie goes to the even tenth.
    assert_eq!("1.2 KiB", print_bytes(1280));
    // 1792 / 1024 = 1.75 exactly: the tie goes up to the even tenth.
    assert_eq!("1.8 KiB", print_bytes(1792));
}

#[test]
fn print_secs_truncates_within_unit() {
    assert_eq!("1 min", print_secs(119));
    assert_eq!("59 min", print_secs(3599));
    assert_eq!("1 h", print_secs(3600));
    assert_eq!("2 h", print_secs(2 * 3600 + 3599));
}

#[test]
fn decimal_rendering() {
    assert_eq!("0", u64_to_dec(0));
    assert_eq!("7", u64_to_dec(7));
    assert_eq!("10", u64_to_dec(10));
    assert_eq!("18446744073709551615", u64_to_dec(u64::MAX));
}

#[test]
fn cpu_summary_means() {
    let cores = vec![
        CpuCore { usage: 10, freq: 3400 },
        CpuCore { usage: 30, freq: 3500 },
    ];
    assert_eq!("20% 3.45 GHz", cpu_summary(&cores));
}

#[test]
fn cpu_summary_empty_is_zero() {
    let cores: Vec<CpuCore> = Vec::new();
    assert_eq!("0% 0.00 GHz", cpu_summary(&cores));
}

#[test]
fn cpu_summary_single_core() {
    let cores = vec![CpuCore { usage: 99, freq: 1000 }];
    assert_eq!("99% 1.00 GHz", cpu_summary(&cores));
}
