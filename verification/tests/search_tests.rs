use pubky_vanity::search::{
    matches_prefix, resolve_worker_count, search_scripted, should_report, SearchState,
    WorkerCounter, PUBLISH_BATCH, REPORT_INTERVAL,
};

#[test]
fn prefix_match_is_case_insensitive() {
    assert!(matches_prefix("YBndrf", "ybn"));
    assert!(matches_prefix("ybndrf", "ybn"));
    assert!(matches_prefix("anything", "anything"));
    assert!(!matches_prefix("ybndrf", "ybx"));
    assert!(!matches_prefix("yb", "ybn"));
    assert!(matches_prefix("whatever", ""));
}

#[test]
fn scripted_search_stops_at_first_match() {
    let script: Vec<String> = ["ybndr", "qqqqq", "MyPrefixRest", "myprefixagain"]
        .iter()
        .map(|s| s.to_string())
        .collect();
    let m = search_scripted("myprefix", &script).unwrap();
    assert_eq!(m.index, 2);
    assert_eq!(m.attempts, 3);
}

#[test]
fn scripted_search_reports_position_as_attempts() {
    let mut script: Vec<String> = Vec::new();
    for _ in 0..41 {
        script.push("xxxxxx".to_string());
    }
    script.push("Yes".to_string());
    let m = search_scripted("ye", &script).unwrap();
    assert_eq!(m.index, 41);
    assert_eq!(m.attempts, 42);
}

#[test]
fn scripted_search_without_match_returns_none() {
    let script: Vec<String> = vec!["aaa".to_string(), "bbb".to_string()];
    assert!(search_scripted("zzz", &script).is_none());
}

#[test]
fn counter_batches_and_flushes_exactly() {
    let mut c = WorkerCounter::new();
    assert_eq!(c.published, 0);
    assert_eq!(c.pending, 0);
    for _ in 0..PUBLISH_BATCH - 1 {
        c.record_attempt();
        assert!(!c.batch_ready());
    }
    c.record_attempt();
    assert!(c.batch_ready());
    let n = c.take_pending();
    assert_eq!(n, PUBLISH_BATCH);
    assert_eq!(c.published, PUBLISH_BATCH);
    assert_eq!(c.pending, 0);
    c.record_attempt();
    let n = c.take_pending();
    assert_eq!(n, 1);
    assert_eq!(c.published, PUBLISH_BATCH + 1);
}

#[test]
fn latch_is_claimed_exactly_once() {
    let state = SearchState::new();
    assert!(!state.is_found());
    assert!(state.claim());
    assert!(state.is_found());
    assert!(!state.claim());
    assert!(state.is_found());
}

#[test]
fn published_total_accumulates_and_never_decreases() {
    let state = SearchState::new();
    assert_eq!(state.published_total(), 0);
    let mut last = 0;
    let mut expected = 0;
    for n in [1000usize, 0, 250, 1000, 3] {
        state.publish(n);
        expected += n;
        let seen = state.published_total();
        assert!(seen >= last);
        last = seen;
    }
    assert_eq!(state.published_total(), expected);
}

#[test]
fn reporting_worker_reports_on_the_interval() {
    let mut c = WorkerCounter::new();
    assert!(!should_report(0, &c));
    for _ in 0..REPORT_INTERVAL {
        c.record_attempt();
    }
    let _ = c.take_pending();
    assert!(should_report(0, &c));
    assert!(!should_report(1, &c));
    c.record_attempt();
    assert!(!should_report(0, &c));
}

#[test]
fn worker_count_honours_positive_requests() {
    assert_eq!(resolve_worker_count(Some(4)), 4);
    assert_eq!(resolve_worker_count(Some(1)), 1);
    assert!(resolve_worker_count(Some(0)) >= 1);
    assert!(resolve_worker_count(None) >= 1);
}
