//! Result aggregation: picks the single winning candidate out of the joined
//! workers' outcomes and totals the attempt counts, with zero winners and
//! several winners each surfaced as their own error — the first marks a
//! broken coordination invariant, never an ordinary failure.

use vstd::prelude::*;
use crate::search::{Candidate, WorkerCounter};

verus! {

/// The candidates among the workers' outcomes, in worker order.
pub open spec fn winner_list(outcomes: Seq<Option<Candidate>>) -> Seq<Candidate>
    decreases outcomes.len(),
{
    if outcomes.len() == 0 {
        Seq::empty()
    } else {
        match outcomes[0] {
            Some(c) => seq![c] + winner_list(outcomes.drop_first()),
            None => winner_list(outcomes.drop_first()),
        }
    }
}

/// The completed search: the winning encoding and secret, the winning
/// worker's own attempt count, and the total across all workers.
pub struct SearchResult {
    pub encoding: String,
    pub secret_hex: String,
    pub keypair: pubky::Keypair,
    pub winner_attempts: usize,
    pub total_attempts: usize,
}

/// How aggregation can fail.
#[derive(Debug)]
pub enum AggregateError {
    /// No worker returned a candidate: a coordination invariant is broken,
    /// since workers leave the loop only through the found latch.
    NoWinner,
    /// More than one worker claims the win: equally a logic error.
    MultipleWinners,
}

/// Reconciles the joined workers' outcomes into one result: succeeds exactly
/// when a single worker returned a candidate, and totals the published
/// attempt count with that winner's pending attempts.
pub fn aggregate(outcomes: Vec<Option<Candidate>>, published_total: usize) -> (r: Result<
    SearchResult,
    AggregateError,
>)
    requires
        forall|i: int| 0 <= i < outcomes@.len() ==> (#[trigger] outcomes@[i] matches Some(c)
            ==> published_total + c.pending <= usize::MAX),
    ensures
        r is Ok <==> winner_list(outcomes@).len() == 1,
        r matches Ok(res) ==> {
            let w = winner_list(outcomes@)[0];
            res.encoding == w.encoding && res.secret_hex == w.secret_hex
                && res.winner_attempts == w.attempts && res.total_attempts == published_total
                + w.pending
        },
        r matches Err(e) ==> match e {
            AggregateError::NoWinner => winner_list(outcomes@).len() == 0,
            AggregateError::MultipleWinners => winner_list(outcomes@).len() > 1,
        },
{
    let ghost orig = outcomes@;
    let mut rest = outcomes;
    let mut winner: Option<Candidate> = None;
    let mut extra = false;
    let ghost mut done: Seq<Option<Candidate>> = Seq::empty();
    while rest.len() > 0
        invariant
            orig == rest@ + done,
            !extra && winner is None ==> winner_list(done).len() == 0,
            winner matches Some(c) ==> (exists|i: int| 0 <= i < orig.len() && orig[i] == Some(c)),
            !extra ==> (winner matches Some(c) ==> winner_list(done) == seq![c]),
            extra ==> winner_list(done).len() > 1,
            extra ==> winner is Some,
            forall|i: int| 0 <= i < orig.len() ==> (#[trigger] orig[i] matches Some(c)
                ==> published_total + c.pending <= usize::MAX),
        decreases rest@.len(),
    {
        let ghost prev_rest = rest@;
        let x = rest.pop().unwrap();
        let ghost old_done = done;
        proof {
            done = seq![prev_rest.last()] + done;
            assert(orig =~= rest@ + done);
            assert(done.drop_first() =~= old_done);
            match prev_rest.last() {
                Some(c) => {
                    assert(winner_list(done) =~= seq![c] + winner_list(old_done));
                },
                None => {
                    assert(winner_list(done) =~= winner_list(old_done));
                },
            }
        }
        match x {
            Some(c) => {
                proof {
                    assert(orig[rest@.len() as int] == Some(c));
                }
                if winner.is_some() {
                    extra = true;
                } else {
                    winner = Some(c);
                }
            },
            None => {},
        }
    }
    proof {
        assert(orig =~= done);
    }
    if extra {
        return Err(AggregateError::MultipleWinners);
    }
    match winner {
        Some(c) => {
            let total_attempts = published_total + c.pending;
            Ok(SearchResult {
                encoding: c.encoding,
                secret_hex: c.secret_hex,
                keypair: c.keypair,
                winner_attempts: c.attempts,
                total_attempts,
            })
        },
        None => Err(AggregateError::NoWinner),
    }
}

/// The sum of the workers' published attempt counts.
pub open spec fn sum_published(counters: Seq<WorkerCounter>) -> int
    decreases counters.len(),
{
    if counters.len() == 0 {
        0
    } else {
        counters[0].published + sum_published(counters.drop_first())
    }
}

/// The sum of all attempts the workers truly made, published or pending.
pub open spec fn sum_attempts(counters: Seq<WorkerCounter>) -> int
    decreases counters.len(),
{
    if counters.len() == 0 {
        0
    } else {
        counters[0].total() + sum_attempts(counters.drop_first())
    }
}

/// With every counter flushed, published and true sums agree.
proof fn lemma_flushed_sum(counters: Seq<WorkerCounter>)
    requires
        forall|i: int| 0 <= i < counters.len() ==> counters[i].pending == 0,
    ensures
        sum_published(counters) == sum_attempts(counters),
    decreases counters.len(),
{
    if counters.len() > 0 {
        assert(forall|i: int|
            0 <= i < counters.drop_first().len() ==> counters.drop_first()[i] == counters[i + 1]);
        lemma_flushed_sum(counters.drop_first());
    }
}

/// Law: attempt accounting is exact. When every worker but the winner has
/// flushed its pending attempts into the shared counter, the published sum
/// plus the winner's pending attempts equals the true number of samples
/// drawn across all workers — nothing is counted twice, nothing is lost in
/// an unpublished batch.
pub proof fn lemma_exact_accounting(counters: Seq<WorkerCounter>, w: int)
    requires
        0 <= w < counters.len(),
        forall|i: int| 0 <= i < counters.len() && i != w ==> counters[i].pending == 0,
    ensures
        sum_published(counters) + counters[w].pending == sum_attempts(counters),
    decreases counters.len(),
{
    assert(forall|i: int|
        0 <= i < counters.drop_first().len() ==> counters.drop_first()[i] == counters[i + 1]);
    if w == 0 {
        lemma_flushed_sum(counters.drop_first());
    } else {
        lemma_exact_accounting(counters.drop_first(), w - 1);
    }
}

} // verus!
