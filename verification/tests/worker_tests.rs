use pubky_vanity::aggregate::aggregate;
use pubky_vanity::search::{flush_pending, worker_try, SearchState, WorkerCounter};

// A one-character prefix matches one key in 32 on average, so a bounded
// number of samples finds one with overwhelming probability.
#[test]
fn single_worker_finds_a_one_char_prefix_with_exact_accounting() {
    let state = SearchState::new();
    let mut counter = WorkerCounter::new();
    let mut won: Option<_> = None;
    for _ in 0..1_000_000usize {
        if state.is_found() {
            break;
        }
        if let Some(c) = worker_try("y", &state, &mut counter) {
            won = Some(c);
            break;
        }
    }
    let c = won.expect("no match within the sample bound");
    assert_eq!(c.encoding.len(), 52);
    assert!(c.encoding.to_lowercase().starts_with('y'));
    assert_eq!(c.secret_hex.len(), 64);
    assert_eq!(c.attempts, counter.published + counter.pending);
    assert_eq!(c.pending, counter.pending);

    // The winner leaves its pending share unpublished; the aggregator adds
    // it to the published total, so nothing is counted twice or lost.
    let true_samples = counter.published + counter.pending;
    let published = state.published_total();
    assert_eq!(published, counter.published);
    let res = aggregate(vec![Some(c)], published).unwrap();
    assert_eq!(res.total_attempts, true_samples);
}

#[test]
fn losing_worker_flushes_every_pending_attempt() {
    let state = SearchState::new();
    let mut counter = WorkerCounter::new();
    // A 37-character prefix is out of reach in 2500 samples, so this worker
    // always loses; only the attempt accounting is under test.
    for _ in 0..2_500usize {
        let _ = worker_try("yyyyyyyyyyyyyyyyyyyyyyyyyyyyyyyyyyyyy", &state, &mut counter);
    }
    assert_eq!(counter.published + counter.pending, 2_500);
    assert_eq!(counter.published, 2_000);
    flush_pending(&state, &mut counter);
    assert_eq!(counter.pending, 0);
    assert_eq!(counter.published, 2_500);
    assert_eq!(state.published_total(), 2_500);
}
