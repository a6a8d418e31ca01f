//! The search engine: case-insensitive prefix matching, the per-worker
//! sampling step with batched publication of attempt counts, and the two
//! shared atomic cells — a found latch and an attempt counter — that
//! coordinate the workers without locks.

use vstd::prelude::*;
use core::sync::atomic::{AtomicBool, AtomicUsize, Ordering};
use crate::alphabet::{lower_char, to_lower_char, lower_seq};
use crate::keys::{
    random_keypair, public_encoding_of, secret_bytes_of, hex_encode, valid_hex,
    lemma_hex_of_len, lemma_hex_of_digits,
};
use vstd::string::StrSliceExecFns;

verus! {

/// How many locally counted attempts a worker gathers before it adds them
/// to the shared counter in one atomic step.
pub const PUBLISH_BATCH: usize = 1000;

/// How many published attempts lie between two progress reports of the
/// reporting worker.
pub const REPORT_INTERVAL: usize = 10000;

/// Whether the case-folded `encoding` starts with `prefix` (`prefix` is
/// already lowercase).
pub open spec fn spec_matches(encoding: Seq<char>, prefix: Seq<char>) -> bool {
    prefix.len() <= encoding.len() && lower_seq(encoding).take(prefix.len() as int) == prefix
}

/// Case-insensitive prefix test: does the folded `encoding` start with
/// `prefix`?
pub fn matches_prefix(encoding: &str, prefix: &str) -> (b: bool)
    ensures
        b == spec_matches(encoding@, prefix@),
{
    let plen = prefix.unicode_len();
    let elen = encoding.unicode_len();
    if plen > elen {
        return false;
    }
    let mut i: usize = 0;
    while i < plen
        invariant
            i <= plen,
            plen == prefix@.len(),
            elen == encoding@.len(),
            plen <= elen,
            forall|j: int| 0 <= j < i ==> lower_char(encoding@[j]) == prefix@[j],
        decreases plen - i,
    {
        if to_lower_char(encoding.get_char(i)) != prefix.get_char(i) {
            proof {
                if spec_matches(encoding@, prefix@) {
                    assert(lower_seq(encoding@).take(plen as int)[i as int] == prefix@[i as int]);
                    assert(lower_seq(encoding@)[i as int] == lower_char(encoding@[i as int]));
                }
            }
            return false;
        }
        i = i + 1;
    }
    proof {
        assert(lower_seq(encoding@).take(plen as int) =~= prefix@);
    }
    true
}

/// The shared coordination state of one search: a found latch that moves
/// from false to true at most once, and a counter of published attempts.
/// Both are read and written by every worker without locks; nothing is
/// known here of the values other workers have put in them.
pub struct SearchState {
    found: AtomicBool,
    attempts: AtomicUsize,
}

impl SearchState {
    /// Fresh state: latch down, counter at zero.
    pub fn new() -> SearchState {
        SearchState { found: AtomicBool::new(false), attempts: AtomicUsize::new(0) }
    }

    /// A relaxed read of the found latch. Staleness of one iteration is
    /// tolerated by every caller.
    pub fn is_found(&self) -> bool {
        self.found.load(Ordering::Relaxed)
    }

    /// Tries to raise the found latch; true exactly when this call was the
    /// one that saw it down and raised it, so at most one claim ever wins.
    pub fn claim(&self) -> bool {
        self.found.compare_exchange(false, true, Ordering::Relaxed, Ordering::Relaxed).is_ok()
    }

    /// Adds one batch of attempts to the shared counter in one atomic step.
    pub fn publish(&self, n: usize) {
        self.attempts.fetch_add(n, Ordering::Relaxed);
    }

    /// A relaxed read of the published total; may lag the true count by the
    /// workers' pending batches.
    pub fn published_total(&self) -> usize {
        self.attempts.load(Ordering::Relaxed)
    }
}

/// One worker's attempt bookkeeping: `published` counts what it has already
/// added to the shared counter, `pending` what it has counted since.
pub struct WorkerCounter {
    pub published: usize,
    pub pending: usize,
}

impl WorkerCounter {
    /// All attempts this worker has made.
    pub open spec fn total(self) -> int {
        self.published + self.pending
    }

    /// A fresh counter: nothing attempted yet.
    pub fn new() -> (c: WorkerCounter)
        ensures
            c.published == 0,
            c.pending == 0,
    {
        WorkerCounter { published: 0, pending: 0 }
    }

    /// Counts one attempt locally.
    pub fn record_attempt(&mut self)
        requires
            old(self).total() < usize::MAX,
        ensures
            final(self).pending == old(self).pending + 1,
            final(self).published == old(self).published,
    {
        self.pending = self.pending + 1;
    }

    /// Whether a full batch is waiting to be published.
    pub fn batch_ready(&self) -> (b: bool)
        ensures
            b == (self.pending >= PUBLISH_BATCH),
    {
        self.pending >= PUBLISH_BATCH
    }

    /// Moves everything pending into the published count and returns the
    /// amount, for one atomic add to the shared counter.
    pub fn take_pending(&mut self) -> (n: usize)
        requires
            old(self).total() <= usize::MAX,
        ensures
            n == old(self).pending,
            final(self).pending == 0,
            final(self).published == old(self).published + n,
    {
        let n = self.pending;
        self.pending = 0;
        self.published = self.published + n;
        n
    }
}

/// A matching candidate: the winning keypair with its public encoding, the
/// hex form of its secret key, and the winning worker's attempt counts —
/// all of them, and the pending share the shared counter has not seen.
pub struct Candidate {
    pub encoding: String,
    pub secret_hex: String,
    pub keypair: pubky::Keypair,
    pub attempts: usize,
    pub pending: usize,
}

/// One iteration of the worker loop: samples a keypair, counts the attempt,
/// publishes a full batch if one is ready, and tests the encoding against
/// the prefix. Returns the candidate exactly when the encoding matches and
/// this worker's claim on the found latch won; a lost race or a mismatch
/// returns nothing, and the loop around this (whose exit the shared latch
/// decides) carries on.
pub fn worker_try(prefix: &str, state: &SearchState, counter: &mut WorkerCounter) -> (r: Option<
    Candidate,
>)
    requires
        old(counter).total() < usize::MAX,
    ensures
        final(counter).total() == old(counter).total() + 1,
        final(counter).published >= old(counter).published,
        // The shared counter lags the truth by less than one batch.
        old(counter).pending < PUBLISH_BATCH ==> final(counter).pending < PUBLISH_BATCH,
        r matches Some(c) ==> spec_matches(c.encoding@, prefix@) && c.encoding@.len() == 52
            && c.pending == final(counter).pending && c.attempts == final(counter).total()
            && c.secret_hex@.len() == 64 && valid_hex(c.secret_hex@),
{
    let keypair = random_keypair();
    let encoding = public_encoding_of(&keypair);
    counter.record_attempt();
    if counter.batch_ready() {
        let n = counter.take_pending();
        state.publish(n);
    }
    if matches_prefix(encoding.as_str(), prefix) {
        if state.claim() {
            let secret = secret_bytes_of(&keypair);
            let secret_hex = hex_encode(&secret);
            proof {
                lemma_hex_of_len(secret@);
                lemma_hex_of_digits(secret@);
            }
            let attempts = counter.published + counter.pending;
            let pending = counter.pending;
            return Some(Candidate { encoding, secret_hex, keypair, attempts, pending });
        }
    }
    None
}

/// Publishes whatever is still pending; a worker that leaves the loop
/// without the win calls this, so no attempt goes uncounted.
pub fn flush_pending(state: &SearchState, counter: &mut WorkerCounter)
    requires
        old(counter).total() <= usize::MAX,
    ensures
        final(counter).pending == 0,
        final(counter).published == old(counter).published + old(counter).pending,
{
    let n = counter.take_pending();
    if n > 0 {
        state.publish(n);
    }
}

/// Whether the worker should emit a progress line now: only the reporting
/// worker (identity 0), and only just after a publish that completed a
/// report interval.
pub fn should_report(worker_id: usize, counter: &WorkerCounter) -> (b: bool)
    ensures
        b == (worker_id == 0 && counter.pending == 0 && counter.published > 0
            && counter.published % REPORT_INTERVAL == 0),
{
    worker_id == 0 && counter.pending == 0 && counter.published > 0 && counter.published
        % REPORT_INTERVAL == 0
}

/// A match found by a scripted, single-worker search: the index of the
/// matching encoding and the attempts spent reaching it.
pub struct ScriptedMatch {
    pub index: usize,
    pub attempts: usize,
}

/// A single-worker search over a scripted sequence of public encodings:
/// stops at the first encoding whose case-folded form starts with `prefix`,
/// having spent exactly one attempt per encoding tried, so the attempt
/// count equals the matching position (one-based).
pub fn search_scripted(prefix: &str, encodings: &Vec<String>) -> (r: Option<ScriptedMatch>)
    ensures
        r matches Some(m) ==> m.index < encodings@.len()
            && spec_matches(encodings@[m.index as int]@, prefix@)
            && (forall|j: int| 0 <= j < m.index ==> !spec_matches(encodings@[j]@, prefix@))
            && m.attempts == m.index + 1,
        r is None ==> forall|j: int|
            0 <= j < encodings@.len() ==> !spec_matches(encodings@[j]@, prefix@),
{
    let mut i: usize = 0;
    while i < encodings.len()
        invariant
            i <= encodings@.len(),
            forall|j: int| 0 <= j < i ==> !spec_matches(encodings@[j]@, prefix@),
        decreases encodings@.len() - i,
    {
        if matches_prefix(encodings[i].as_str(), prefix) {
            return Some(ScriptedMatch { index: i, attempts: i + 1 });
        }
        i = i + 1;
    }
    None
}

/// Relies on `num_cpus::get`: the number of logical CPUs, always at least 1.
#[verifier::external_body]
fn hardware_parallelism() -> (n: usize)
    ensures
        n >= 1,
{
    num_cpus::get()
}

/// Resolves the requested worker count: a positive request is honoured, an
/// absent or non-positive one falls back to the hardware parallelism.
pub fn resolve_worker_count(requested: Option<usize>) -> (n: usize)
    ensures
        n >= 1,
        requested matches Some(k) ==> (k >= 1 ==> n == k),
{
    match requested {
        Some(k) => if k >= 1 {
            k
        } else {
            hardware_parallelism()
        },
        None => hardware_parallelism(),
    }
}

/// The shared counter's value after the first `k` of a series of batch
/// publications.
pub open spec fn running_total(amounts: Seq<usize>, k: int) -> int
    recommends
        0 <= k <= amounts.len(),
    decreases k,
{
    if k <= 0 {
        0
    } else {
        running_total(amounts, k - 1) + amounts[k - 1]
    }
}

/// Law: the published attempt total never decreases as the search
/// progresses — every batch adds a non-negative amount, so a later read of
/// the shared counter sees at least what an earlier one saw.
pub proof fn lemma_progress_monotone(amounts: Seq<usize>, i: int, j: int)
    requires
        0 <= i <= j <= amounts.len(),
    ensures
        running_total(amounts, i) <= running_total(amounts, j),
    decreases j - i,
{
    if i < j {
        lemma_progress_monotone(amounts, i, j - 1);
    }
}

} // verus!
