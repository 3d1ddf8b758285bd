use vanity_search::config::{Config, ConfigError, parse_decimal, DEFAULT_STAT_SECS};
use vanity_search::coordinator::plan;
use vanity_search::counter::OpCounter;
use vanity_search::flag::StopFlag;
use vanity_search::stats::{ops_per_second, reporter_step, ReporterStep, POLL_MILLIS};
use vanity_search::target::{prefix_matches, SearchTarget};
use vanity_search::worker::{evaluate_batch, process_batch, BATCH_SIZE};

// Matcher: an address matches exactly when its first characters equal the
// prefix.

#[test]
fn matcher_exact_prefix() {
    assert!(prefix_matches("0xabc", "0xab"));
    assert!(prefix_matches("0xabc", "0xabc"));
    assert!(!prefix_matches("0xab", "0xabc"));
    assert!(!prefix_matches("0xabc", "0xb"));
}

#[test]
fn matcher_is_case_sensitive() {
    assert!(!prefix_matches("0xabc", "0xAB"));
    assert!(!prefix_matches("0xABC", "0xab"));
}

#[test]
fn matcher_empty_prefix_matches_everything() {
    assert!(prefix_matches("0x1234", ""));
    assert!(prefix_matches("", ""));
}

// Target construction and hex validation.

#[test]
fn target_from_hex_normalizes_with_marker() {
    let t = SearchTarget::from_hex("ab").unwrap();
    assert_eq!(t.as_str(), "0xab");
    assert!(t.matches_address("0xab99"));
    assert!(!t.matches_address("0x1234"));
}

#[test]
fn target_rejects_non_hex() {
    assert!(matches!(SearchTarget::from_hex("xyz"), Err(ConfigError::NonHexPrefix)));
    assert!(matches!(SearchTarget::from_hex("12g4"), Err(ConfigError::NonHexPrefix)));
    assert!(matches!(SearchTarget::from_hex("0x12"), Err(ConfigError::NonHexPrefix)));
    assert!(SearchTarget::from_hex("0123456789abcdefABCDEF").is_ok());
}

#[test]
fn target_zero_count_mode_normalizes_like_literal() {
    let by_count = SearchTarget::from_zero_count(3);
    let by_literal = SearchTarget::from_hex("000").unwrap();
    assert_eq!(by_count.as_str(), "0x000");
    assert_eq!(by_count.as_str(), by_literal.as_str());
    assert!(by_count.matches_address("0x000abc"));
    assert!(!by_count.matches_address("0x00abc"));
}

// Decimal argument parsing.

#[test]
fn parse_decimal_values() {
    assert_eq!(parse_decimal("0"), Some(0));
    assert_eq!(parse_decimal("10"), Some(10));
    assert_eq!(parse_decimal("107"), Some(107));
    assert_eq!(parse_decimal("18446744073709551615"), Some(u64::MAX));
}

#[test]
fn parse_decimal_rejections() {
    assert_eq!(parse_decimal(""), None);
    assert_eq!(parse_decimal("a"), None);
    assert_eq!(parse_decimal("1a"), None);
    assert_eq!(parse_decimal("-1"), None);
    assert_eq!(parse_decimal(" 1"), None);
    assert_eq!(parse_decimal("18446744073709551616"), None);
    assert_eq!(parse_decimal("99999999999999999999999"), None);
}

// Configuration validation: invalid input is rejected before any worker
// exists, so no key generation can happen on it.

#[test]
fn config_rejects_non_hex_prefix_before_any_worker() {
    let r = Config::from_args(Some("4"), true, Some("10"), "not-hex!");
    assert!(matches!(r, Err(ConfigError::NonHexPrefix)));
    // No configuration exists, so no plan and no worker: zero generation
    // attempts can be made on invalid input.
}

#[test]
fn config_rejects_bad_thread_count() {
    assert!(matches!(
        Config::from_args(Some("0"), false, None, "ab"),
        Err(ConfigError::BadThreadCount)
    ));
    assert!(matches!(
        Config::from_args(Some("many"), false, None, "ab"),
        Err(ConfigError::BadThreadCount)
    ));
}

#[test]
fn config_rejects_bad_stat_interval() {
    assert!(matches!(
        Config::from_args(None, false, Some("soon"), "ab"),
        Err(ConfigError::BadStatInterval)
    ));
}

#[test]
fn config_error_order_is_threads_stat_prefix() {
    let r = Config::from_args(Some("zero"), false, Some("soon"), "not-hex!");
    assert!(matches!(r, Err(ConfigError::BadThreadCount)));
    let r = Config::from_args(Some("2"), false, Some("soon"), "not-hex!");
    assert!(matches!(r, Err(ConfigError::BadStatInterval)));
}

#[test]
fn config_accepts_and_normalizes() {
    let cfg = Config::from_args(Some("3"), true, Some("7"), "ab").unwrap();
    assert_eq!(cfg.threads, 3);
    assert!(cfg.exit);
    assert_eq!(cfg.stat_secs, 7);
    assert_eq!(cfg.target.as_str(), "0xab");
}

#[test]
fn config_defaults() {
    let cfg = Config::from_args(None, false, None, "ab").unwrap();
    assert!(cfg.threads >= 1);
    assert!(!cfg.exit);
    assert_eq!(cfg.stat_secs, DEFAULT_STAT_SECS);
    assert_eq!(DEFAULT_STAT_SECS, 10);
}

// Coordinator plan.

#[test]
fn plan_spawns_threads_and_optional_reporter() {
    let cfg = Config::from_args(Some("5"), false, Some("10"), "ab").unwrap();
    let p = plan(&cfg);
    assert_eq!(p.workers, 5);
    assert!(p.reporter);
    let cfg = Config::from_args(Some("2"), false, Some("0"), "ab").unwrap();
    let p = plan(&cfg);
    assert_eq!(p.workers, 2);
    assert!(!p.reporter);
}

// Stop flag: set is idempotent and never reverts.

#[test]
fn stop_flag_set_is_idempotent() {
    let mut f = StopFlag::new();
    assert!(!f.is_set());
    f.set();
    assert!(f.is_set());
    f.set();
    f.set();
    assert!(f.is_set());
}

// Operation counter: drained reads plus the pending count account for
// every increment exactly once.

#[test]
fn counter_accounts_for_every_increment() {
    let mut c = OpCounter::new();
    let mut drained: u64 = 0;
    c.add(10);
    c.add(5);
    drained += c.take();
    assert_eq!(drained, 15);
    c.add(3);
    c.add(7);
    drained += c.take();
    drained += c.take();
    assert_eq!(drained, 25);
    assert_eq!(c.take(), 0);
}

// Worker batches.

#[test]
fn batch_size_is_ten() {
    assert_eq!(BATCH_SIZE, 10);
}

#[test]
fn batch_evaluates_whole_batch_and_flags_matches() {
    let t = SearchTarget::from_hex("ab").unwrap();
    let addresses = vec![
        "0x1234".to_string(),
        "0xab99".to_string(),
        "0xabcd".to_string(),
    ];
    let out = evaluate_batch(&t, &addresses, true);
    assert_eq!(out.matched, vec![false, true, true]);
    assert!(out.any_match);
    assert!(out.set_stop);
    assert_eq!(out.count, 3);
}

#[test]
fn batch_without_exit_never_asks_for_stop() {
    let t = SearchTarget::from_hex("ab").unwrap();
    let addresses = vec!["0xab99".to_string()];
    let out = evaluate_batch(&t, &addresses, false);
    assert_eq!(out.matched, vec![true]);
    assert!(out.any_match);
    assert!(!out.set_stop);
}

#[test]
fn process_batch_with_exit_sets_stop_on_match() {
    let t = SearchTarget::from_hex("ab").unwrap();
    let mut stop = StopFlag::new();
    let mut counter = OpCounter::new();
    let addresses = vec!["0x1234".to_string(), "0xab99".to_string()];
    let matched = process_batch(&t, &addresses, true, &mut stop, &mut counter);
    assert_eq!(matched, vec![false, true]);
    assert!(stop.is_set());
    assert_eq!(counter.take(), 2);
}

#[test]
fn process_batch_without_exit_continues_past_matches() {
    let t = SearchTarget::from_hex("ab").unwrap();
    let mut stop = StopFlag::new();
    let mut counter = OpCounter::new();
    // A generator stub that always matches: every address satisfies the
    // target. With early exit disabled the run continues batch after batch.
    let always = vec!["0xab00".to_string(), "0xab11".to_string()];
    for _ in 0..5 {
        assert!(!stop.is_set());
        let matched = process_batch(&t, &always, false, &mut stop, &mut counter);
        assert_eq!(matched, vec![true, true]);
    }
    assert!(!stop.is_set());
    assert_eq!(counter.take(), 10);
}

// Scripted end-to-end scenario: target "ab", a generator cycling through
// three addresses, early exit on, one worker, batch size one. The match
// comes on the second call and the third address is never consumed.

#[test]
fn scripted_run_stops_at_second_address() {
    let script = vec![
        "0x1234".to_string(),
        "0xab99".to_string(),
        "0xabcd".to_string(),
    ];
    let cfg = Config::from_args(Some("1"), true, None, "ab").unwrap();
    let t = cfg.target;
    let mut stop = StopFlag::new();
    let mut counter = OpCounter::new();
    let mut consumed: usize = 0;
    let mut match_at: Option<usize> = None;
    while !stop.is_set() {
        // One batch of one attempt: the next scripted address.
        let batch = vec![script[consumed].clone()];
        consumed += 1;
        let matched = process_batch(&t, &batch, cfg.exit, &mut stop, &mut counter);
        if matched[0] && match_at.is_none() {
            match_at = Some(consumed);
        }
    }
    assert_eq!(match_at, Some(2));
    assert_eq!(consumed, 2);
    assert!(stop.is_set());
    assert_eq!(counter.take(), 2);
}

// Reporter logic.

#[test]
fn reporter_step_decisions() {
    assert_eq!(reporter_step(true, 0, 10), ReporterStep::Stop);
    assert_eq!(reporter_step(true, 99_999, 10), ReporterStep::Stop);
    assert_eq!(reporter_step(false, 10_000, 10), ReporterStep::Report);
    assert_eq!(reporter_step(false, 10_050, 10), ReporterStep::Report);
    assert_eq!(reporter_step(false, 9_950, 10), ReporterStep::Wait);
    assert_eq!(reporter_step(false, 0, 10), ReporterStep::Wait);
    assert_eq!(POLL_MILLIS, 50);
}

#[test]
fn throughput_is_count_over_elapsed() {
    assert_eq!(ops_per_second(1000, 1_000_000), 1000);
    assert_eq!(ops_per_second(1, 1), 1_000_000);
    assert_eq!(ops_per_second(0, 123_456), 0);
    assert_eq!(ops_per_second(150, 2_000_000), 75);
    // Rounds down.
    assert_eq!(ops_per_second(3, 2_000_000), 1);
}
