use pubky_vanity::aggregate::{aggregate, AggregateError};
use pubky_vanity::search::Candidate;

fn candidate(encoding: &str, attempts: usize, pending: usize) -> Candidate {
    let keypair = pubky::Keypair::random();
    Candidate {
        encoding: encoding.to_string(),
        secret_hex: "ab".repeat(32),
        keypair,
        attempts,
        pending,
    }
}

#[test]
fn single_winner_is_returned_with_exact_total() {
    // Three workers: the winner drew 2345 samples (2000 published, 345
    // pending); the losers drew 3000 and 1999 and flushed everything.
    let outcomes = vec![
        None,
        Some(candidate("ybndrQQQ", 2345, 345)),
        None,
    ];
    let published = 2000 + 3000 + 1999;
    let true_samples = 2345 + 3000 + 1999;
    let res = aggregate(outcomes, published).unwrap();
    assert_eq!(res.encoding, "ybndrQQQ");
    assert_eq!(res.winner_attempts, 2345);
    assert_eq!(res.total_attempts, true_samples);
}

#[test]
fn no_winner_is_a_distinct_error() {
    let outcomes: Vec<Option<Candidate>> = vec![None, None, None];
    assert!(matches!(aggregate(outcomes, 42), Err(AggregateError::NoWinner)));
}

#[test]
fn several_winners_are_a_distinct_error() {
    let outcomes = vec![
        Some(candidate("aaa", 10, 10)),
        None,
        Some(candidate("bbb", 20, 20)),
    ];
    assert!(matches!(aggregate(outcomes, 0), Err(AggregateError::MultipleWinners)));
}

#[test]
fn empty_outcome_list_has_no_winner() {
    let outcomes: Vec<Option<Candidate>> = Vec::new();
    assert!(matches!(aggregate(outcomes, 0), Err(AggregateError::NoWinner)));
}
