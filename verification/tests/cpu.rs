use checkup::features::metrics::metrics_handlers::{
    cpu_usage_between, parse_cpu_ticks, CpuTicks, CpuUsage,
};

const SAMPLE: &str = "cpu  10132153 290696 3084719 46828483 16683 0 25195 0 175628 0\n\
cpu0 1393280 32966 572056 13343292 6130 0 17875 0 23933 0\n\
cpu1 1335251 32961 571999 13381312 5160 0 3006 0 23858 0\n\
intr 1462898\n\
ctxt 2021890\n";

#[test]
fn reads_a_proc_stat_sample() {
    let t = parse_cpu_ticks(SAMPLE).unwrap();
    let idle = 46828483u64 + 16683;
    let busy = 10132153u64 + 290696 + 3084719 + 0 + 25195 + 0;
    assert_eq!(t, CpuTicks { total: idle + busy, idle, iowait: 16683, cores: 2 });
}

#[test]
fn no_core_lines_means_one_core() {
    let t = parse_cpu_ticks("cpu 1 2 3 4 5 6 7 8").unwrap();
    assert_eq!(t, CpuTicks { total: 36, idle: 9, iowait: 5, cores: 1 });
}

#[test]
fn crlf_lines_and_extra_counters() {
    let t = parse_cpu_ticks("cpu 1 1 1 1 1 1 1 1 9 9\r\ncpu0 x\r\ncpu1\r\ncpux\r\n").unwrap();
    assert_eq!(t.total, 8);
    assert_eq!(t.cores, 3);
}

#[test]
fn rejects_other_first_lines() {
    assert_eq!(parse_cpu_ticks(""), None);
    assert_eq!(parse_cpu_ticks("cpu0 1 2 3 4 5 6 7 8"), None);
    assert_eq!(parse_cpu_ticks("intr 1\ncpu 1 2 3 4 5 6 7 8"), None);
    assert_eq!(parse_cpu_ticks("cpu\t1 2 3 4 5 6 7 8"), None);
}

#[test]
fn rejects_short_or_bad_counters() {
    assert_eq!(parse_cpu_ticks("cpu 1 2 3 4 5 6 7"), None);
    assert_eq!(parse_cpu_ticks("cpu 1 2 3 4 5 6 7 -8"), None);
    assert_eq!(parse_cpu_ticks("cpu 1 2 3 4 x 6 7 8"), None);
    assert_eq!(parse_cpu_ticks("cpu 1 2 3 4 5 6 7 18446744073709551616"), None);
}

#[test]
fn rejects_a_sum_that_overflows() {
    assert_eq!(parse_cpu_ticks("cpu 18446744073709551615 0 0 0 0 0 0 0").map(|t| t.total), Some(u64::MAX));
    assert_eq!(parse_cpu_ticks("cpu 18446744073709551615 0 0 1 0 0 0 0"), None);
}

#[test]
fn accepts_plus_signs_and_unicode_spaces() {
    let t = parse_cpu_ticks("cpu +1 2\u{3000}3 4 5 6 7 8").unwrap();
    assert_eq!(t.total, 36);
}

#[test]
fn usage_between_readings() {
    let prev = CpuTicks { total: 1000, idle: 800, iowait: 50, cores: 4 };
    let curr = CpuTicks { total: 1200, idle: 900, iowait: 70, cores: 4 };
    assert_eq!(
        cpu_usage_between(&prev, &curr),
        Some(CpuUsage { total: 200, busy: 100, iowait: 20, cores: 4 })
    );
    assert_eq!(cpu_usage_between(&curr, &curr), None);
    // Counters that went backwards saturate at zero.
    assert_eq!(cpu_usage_between(&curr, &prev), None);
}
