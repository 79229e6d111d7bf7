use sol_trade_sdk::SwqosType;
use sol_trade_sdk::clock::{HighPerformanceClock, elapsed_micros_since, now_micros};
use sol_trade_sdk::fast_timing::{
    FastStopwatch, FastTimer, fast_elapsed_nanos, fast_now_micros, fast_now_nanos,
    nanos_to_micros, nanos_to_millis,
};

/// Run with `-- --nocapture` to preview the timing log lines.
#[test]
fn log_timing_preview() {
    let dir = "Buy";
    let build_ms = 12.34;
    let before_submit_ms = 15.67;
    println!("\n--- 1. build/before-submit timings (printed once each, in ms) ---\n");
    println!(" [SDK] {} build_instructions: {:.4} ms", dir, build_ms);
    println!(" [SDK] {} before_submit: {:.4} ms", dir, before_submit_ms);

    println!("\n--- 2. per-channel timings: submit, confirmed, total ---\n");
    for (swqos_type, submit_ms, confirmed_ms, total_ms) in [
        (SwqosType::Jito, 45.12, 83.38, 128.50),
        (SwqosType::Helius, 52.30, 76.20, 128.50),
        (SwqosType::ZeroSlot, 48.90, 79.60, 128.50),
    ] {
        println!(
            " [SDK] {} {:?} submit: {:.4} ms, confirmed: {:.4} ms, total: {:.4} ms",
            dir, swqos_type, submit_ms, confirmed_ms, total_ms
        );
    }

    println!("\n--- 3. without confirmation: total equals the channel's submit time ---\n");
    for (swqos_type, submit_ms, total_ms) in
        [(SwqosType::Jito, 44.20, 44.20), (SwqosType::Helius, 51.80, 51.80)]
    {
        println!(
            " [SDK] {} {:?} submit: {:.4} ms, confirmed: -, total: {:.4} ms",
            dir, swqos_type, submit_ms, total_ms
        );
    }

    println!("\n--- 4. simulate mode ---\n");
    println!(" [SDK] {} build_instructions: {:.4} ms", dir, build_ms);
    println!(" [SDK] {} before_submit: {:.4} ms", dir, before_submit_ms);
    println!(" [SDK] {} simulate (dry-run): {:.4} ms", dir, 8.50);
    println!(" [SDK] {} total: {:.4} ms", dir, 36.51);
    println!();
}

#[test]
fn clock_reads_are_on_the_utc_microsecond_scale() {
    // Any reading after 2020 is at least this many microseconds.
    let year_2020_us: i64 = 1_577_836_800_000_000;
    let t1 = now_micros();
    assert!(t1 > year_2020_us);
    let since = elapsed_micros_since(t1 - 1_000);
    assert!(since >= 1_000);
}

#[test]
fn high_performance_clock_is_monotonic_against_its_base() {
    let mut clock = HighPerformanceClock::new();
    let t1 = clock.now_micros();
    let t2 = clock.now_micros();
    assert!(t2 >= t1);
    let t3 = clock.now_micros_with_calibration();
    assert!(t3 >= t1);
    let year_2020_us: i64 = 1_577_836_800_000_000;
    assert!(t1 > year_2020_us);
}

#[test]
fn fast_timestamps_count_nanoseconds_since_the_epoch() {
    let year_2020_ns: u64 = 1_577_836_800_000_000_000;
    let t = fast_now_nanos();
    assert!(t > year_2020_ns);
    assert!(fast_now_micros() > year_2020_ns / 1_000);

    // Elapsed readings saturate instead of going negative.
    assert_eq!(fast_elapsed_nanos(u64::MAX), 0);
    let elapsed = fast_elapsed_nanos(t.saturating_sub(5_000));
    assert!(elapsed >= 5_000);
}

#[test]
fn unit_conversions_truncate() {
    assert_eq!(nanos_to_micros(1_999), 1);
    assert_eq!(nanos_to_millis(2_000_001), 2);
    let timer = FastTimer::new();
    let a = timer.now_nanos();
    let b = timer.now_nanos();
    assert!(b >= a);
}

#[test]
fn stopwatch_reports_nonnegative_elapsed() {
    let sw = FastStopwatch::start("unit");
    let ns = sw.elapsed_nanos();
    assert!(sw.elapsed_nanos() >= ns);
    let _ = sw.elapsed();
    let _ = sw.elapsed_micros();
    let _ = sw.elapsed_millis();
}
