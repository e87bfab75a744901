//! Trend-tracking priority scheduler: a min-heap of candidate tweets keyed
//! by next-check time, with the adaptive re-poll delay's penalty feedback
//! loop and the promote/evict decision taken on every tick.
//!
//! Scores are held in milli-units (a score of 15.0 is 15000), so every
//! decision the scheduler takes is integer arithmetic with an exact
//! contract; the floating-point score formula itself is evaluated outside
//! the library and handed in.

use vstd::prelude::*;

use vstd::arithmetic::power2::{lemma_pow2_pos, lemma_pow2_strictly_increases, lemma_pow2_unfold, pow2};
use vstd::math::{max, min};
use vstd::seq_lib::group_to_multiset_ensures;

use crate::model::{ResponseIncludes, Tweet, UserPublicMetrics};

verus! {

/// Milliseconds in three hours.
pub const HOURS_3_MS: i64 = 10_800_000;

/// Milliseconds in twelve hours.
pub const HOURS_12_MS: i64 = 43_200_000;

/// Milliseconds in three days.
pub const DAYS_3_MS: i64 = 259_200_000;

/// A score delta below 1.0 (1000 milli-units) counts as "not trending up".
pub const SCORE_DELTA_FLOOR_MILLI: i64 = 1000;

/// Configuration of one search term, as read from the search config file.
#[derive(Debug, Clone)]
pub struct SearchTermConfig {
    pub id: String,
    pub term: String,
    pub trending: bool,
    /// Promotion threshold in score milli-units (default 15000).
    pub score_threshold_milli: i64,
    pub webhooks: Vec<String>,
}

/// Scheduler record for one candidate tweet awaiting a future score check.
#[derive(Debug, Clone)]
pub struct TrendEntry {
    /// When to check again, UTC epoch milliseconds.
    pub check_due_at: i64,
    pub tweet_id: String,
    /// Creation time of the tweet, UTC epoch milliseconds.
    pub created_at: i64,
    pub config: SearchTermConfig,
    /// Score observed at the previous check, milli-units.
    pub previous_score_milli: i64,
    pub penalty: u32,
}

/// Entries sorted by check-due time, earliest first.
pub open spec fn sorted_by_due(s: Seq<TrendEntry>) -> bool {
    forall|i: int, j: int| 0 <= i < j < s.len() ==> s[i].check_due_at <= s[j].check_due_at
}

/// Min-heap of trend entries keyed by `check_due_at`, kept as a sorted
/// vector.
#[derive(Debug)]
pub struct TrendHeap {
    pub entries: Vec<TrendEntry>,
}

impl TrendHeap {
    pub open spec fn well_formed(self) -> bool {
        sorted_by_due(self.entries@)
    }

    pub fn new() -> (r: Self)
        ensures
            r.well_formed(),
            r.entries@.len() == 0,
    {
        TrendHeap { entries: Vec::new() }
    }

    pub fn len(&self) -> (r: usize)
        ensures
            r == self.entries@.len(),
    {
        self.entries.len()
    }

    /// Inserts an entry, keeping the heap ordered by check-due time.
    pub fn push(&mut self, e: TrendEntry)
        requires
            old(self).well_formed(),
            old(self).entries@.len() < usize::MAX,
        ensures
            final(self).well_formed(),
            final(self).entries@.len() == old(self).entries@.len() + 1,
            final(self).entries@.to_multiset() == old(self).entries@.to_multiset().insert(e),
    {
        broadcast use group_to_multiset_ensures;

        let n = self.entries.len();
        let mut pos: usize = 0;
        while pos < n
            invariant
                0 <= pos <= n,
                n == self.entries@.len(),
                self == old(self),
                forall|j: int| 0 <= j < pos ==> self.entries@[j].check_due_at <= e.check_due_at,
            ensures
                0 <= pos <= n,
                self == old(self),
                forall|j: int| 0 <= j < pos ==> self.entries@[j].check_due_at <= e.check_due_at,
                pos < n ==> self.entries@[pos as int].check_due_at > e.check_due_at,
            decreases n - pos,
        {
            if self.entries[pos].check_due_at > e.check_due_at {
                break ;
            }
            pos = pos + 1;
        }
        self.entries.insert(pos, e);
        proof {
            let s_old = old(self).entries@;
            let s = self.entries@;
            vstd::seq_lib::to_multiset_insert(s_old, pos as int, e);
            assert(forall|k: int| 0 <= k < pos ==> s[k] == s_old[k]);
            assert(s[pos as int] == e);
            assert(forall|k: int| pos < k < s.len() ==> s[k] == s_old[k - 1]);
            assert forall|i: int, j: int|
                0 <= i < j < s.len() implies s[i].check_due_at <= s[j].check_due_at by {
                if i < pos && pos < j {
                    // s[i] is old, s[j] is old; e sits between them.
                    assert(s_old[i].check_due_at <= e.check_due_at);
                    assert(s_old[pos as int].check_due_at > e.check_due_at);
                } else if j == pos && i < pos {
                    assert(s[j] == e);
                } else if i == pos && j > pos {
                    assert(s_old[pos as int].check_due_at > e.check_due_at);
                }
            }
        }
    }

    /// Removes and returns the earliest entry if it is due by `now`. What is
    /// popped is due no later than everything still queued, so consecutive
    /// pops come out in nondecreasing `check_due_at` order.
    pub fn pop_due(&mut self, now: i64) -> (r: Option<TrendEntry>)
        requires
            old(self).well_formed(),
        ensures
            final(self).well_formed(),
            r matches Some(e) ==> {
                &&& old(self).entries@.len() > 0
                &&& e == old(self).entries@[0]
                &&& e.check_due_at <= now
                &&& final(self).entries@ == old(self).entries@.drop_first()
                &&& forall|i: int|
                    0 <= i < final(self).entries@.len() ==> e.check_due_at <= final(
                        self).entries@[i].check_due_at
            },
            r is None ==> *final(self) == *old(self) && (old(self).entries@.len() == 0 || old(
                self).entries@[0].check_due_at > now),
    {
        if self.entries.len() == 0 {
            return None;
        }
        if self.entries[0].check_due_at <= now {
            let e = self.entries.remove(0);
            proof {
                assert(final(self).entries@ =~= old(self).entries@.drop_first());
            }
            Some(e)
        } else {
            None
        }
    }
}

/// Heap ordering: in a well-formed scheduler heap the head is due no later
/// than any other entry, so extraction order is nondecreasing in
/// `check_due_at`.
pub proof fn lemma_heap_ordered(s: Seq<TrendEntry>, i: int)
    requires
        sorted_by_due(s),
        0 < i < s.len(),
    ensures
        s[0].check_due_at <= s[i].check_due_at,
{
}

/// The penalty after one more check: a score delta below the floor doubles
/// it (starting at 1, saturating at `u32::MAX`); a delta at or above the
/// floor subtracts 2 (stopping at 0).
pub open spec fn spec_next_penalty(prev: u32, delta_small: bool) -> u32 {
    if delta_small {
        if prev == 0 {
            1u32
        } else if prev > u32::MAX / 2 {
            u32::MAX
        } else {
            (2 * prev) as u32
        }
    } else {
        if prev >= 2 {
            (prev - 2) as u32
        } else {
            0u32
        }
    }
}

/// Computes the penalty after one more check.
pub fn next_penalty(prev: u32, delta_small: bool) -> (r: u32)
    ensures
        r == spec_next_penalty(prev, delta_small),
{
    if delta_small {
        if prev == 0 {
            1
        } else if prev > u32::MAX / 2 {
            u32::MAX
        } else {
            2 * prev
        }
    } else {
        if prev >= 2 {
            prev - 2
        } else {
            0
        }
    }
}

/// The penalty after `n` consecutive checks whose score delta stayed below
/// the floor, starting from a fresh entry.
pub open spec fn spec_penalty_after(n: nat) -> u32
    decreases n,
{
    if n == 0 {
        0u32
    } else {
        spec_next_penalty(spec_penalty_after((n - 1) as nat), true)
    }
}

/// Penalty bounds, growth: after `n` re-polls whose score delta stayed
/// below the floor, the penalty is exactly `min(2^(n-1), u32::MAX)`.
pub proof fn lemma_penalty_bounds(n: nat)
    requires
        n >= 1,
    ensures
        spec_penalty_after(n) as int == min(pow2((n - 1) as nat) as int, u32::MAX as int),
    decreases n,
{
    if n == 1 {
        assert(pow2(0) == 1) by {
            vstd::arithmetic::power2::lemma2_to64();
        }
        assert(spec_penalty_after(0) == 0u32);
        assert(spec_penalty_after(1) == spec_next_penalty(0u32, true));
    } else {
        let m = (n - 1) as nat;
        lemma_penalty_bounds(m);
        let e = (m - 1) as nat;
        let p = spec_penalty_after(m);
        lemma_pow2_pos(e);
        lemma_pow2_unfold(m);
        assert(pow2(m) == 2 * pow2(e));
        assert(spec_penalty_after(n) == spec_next_penalty(p, true));
        if pow2(e) <= u32::MAX as nat {
            assert(p as int == pow2(e) as int);
            assert(p >= 1);
            if p > u32::MAX / 2 {
                assert(pow2(m) as int == 2 * (p as int));
                assert(pow2(m) > u32::MAX as nat);
                assert(spec_next_penalty(p, true) == u32::MAX);
            } else {
                assert(spec_next_penalty(p, true) as int == 2 * (p as int));
                assert(pow2(m) as int == 2 * (p as int));
                assert(2 * (p as int) <= u32::MAX as int);
            }
        } else {
            assert(p == u32::MAX);
            lemma_pow2_strictly_increases(e, m);
            assert(pow2(m) > u32::MAX as nat);
            assert(spec_next_penalty(p, true) == u32::MAX);
        }
    }
}

/// Penalty bounds, decay: one check whose score delta reaches the floor
/// reduces the penalty by exactly 2, stopping at 0.
pub proof fn lemma_penalty_decay(prev: u32)
    ensures
        spec_next_penalty(prev, false) as int == max(prev as int - 2, 0),
{
}

/// When to check a candidate next: `base_ms + delay_ms × (1 + penalty)`,
/// saturating at `i64::MAX`.
pub open spec fn spec_due_at(base_ms: i64, delay_ms: u64, penalty: u32) -> int {
    min(base_ms + delay_ms * (1 + penalty), i64::MAX as int)
}

/// Computes when to check a candidate next.
pub fn schedule_due(base_ms: i64, delay_ms: u64, penalty: u32) -> (r: i64)
    requires
        base_ms >= 0,
    ensures
        r as int == spec_due_at(base_ms, delay_ms, penalty),
{
    let factor: u64 = penalty as u64 + 1;
    let (total, exact): (u64, bool) = match delay_ms.checked_mul(factor) {
        Some(t) => (t, true),
        None => (u64::MAX, false),
    };
    proof {
        if !exact {
            assert(delay_ms * factor > u64::MAX);
        }
    }
    if total > (i64::MAX - base_ms) as u64 {
        proof {
            assert(delay_ms * factor >= total as int);
        }
        i64::MAX
    } else {
        base_ms + (total as i64)
    }
}

/// What the author's public metrics say about a tweet, resolved through the
/// includes.
pub open spec fn spec_author_metrics(tweet: Tweet, includes: ResponseIncludes) -> Option<
    UserPublicMetrics,
> {
    match tweet.author_id {
        Some(id) => match includes.spec_get_user(id@) {
            Some(u) => u.public_metrics,
            None => None,
        },
        None => None,
    }
}

/// A tweet the scheduler will track: not a retweet, creation time known,
/// author metrics resolvable.
pub open spec fn spec_trend_candidate(tweet: Tweet, includes: ResponseIncludes) -> bool {
    &&& tweet.spec_retweet_source() is None
    &&& tweet.created_at is Some
    &&& spec_author_metrics(tweet, includes) is Some
}

/// What the scheduler needs to know about a tracked tweet.
#[derive(Debug, Clone)]
pub struct TrendCandidate {
    pub tweet_id: String,
    /// Creation time, UTC epoch milliseconds.
    pub created_at: i64,
    pub followers_count: u64,
}

/// Inspects a tweet and keeps it as a trend candidate, or rejects it
/// silently: retweets, tweets without a creation time and tweets whose
/// author metrics cannot be resolved are not tracked.
pub fn trend_candidate(tweet: &Tweet, includes: &ResponseIncludes) -> (r: Option<TrendCandidate>)
    ensures
        r is Some <==> spec_trend_candidate(*tweet, *includes),
        r matches Some(c) ==> {
            &&& c.tweet_id@ == tweet.id@
            &&& Some(c.created_at) == tweet.created_at
            &&& Some(c.followers_count) == match spec_author_metrics(*tweet, *includes) {
                Some(m) => Some(m.followers_count),
                None => None::<u64>,
            }
        },
{
    if tweet.get_retweet_source().is_some() {
        return None;
    }
    let created_at = match tweet.created_at() {
        Some(at) => at,
        None => {
            return None;
        },
    };
    let metrics = match tweet.author_id() {
        Some(id) => match includes.get_user(id) {
            Some(u) => match u.metrics() {
                Some(m) => *m,
                None => {
                    return None;
                },
            },
            None => {
                return None;
            },
        },
        None => {
            return None;
        },
    };
    Some(
        TrendCandidate {
            tweet_id: tweet.id.clone(),
            created_at,
            followers_count: metrics.followers_count,
        },
    )
}

impl TrendHeap {
    /// Tracks a fresh candidate: the first check is scheduled relative to
    /// the tweet's creation time, with no penalty and a zero previous
    /// score. `delay_ms` is the base delay derived from the author's
    /// audience size.
    pub fn insert_candidate(
        &mut self,
        candidate: TrendCandidate,
        config: SearchTermConfig,
        delay_ms: u64,
    )
        requires
            old(self).well_formed(),
            old(self).entries@.len() < usize::MAX,
            candidate.created_at >= 0,
        ensures
            final(self).well_formed(),
            final(self).entries@.len() == old(self).entries@.len() + 1,
            final(self).entries@.to_multiset() == old(self).entries@.to_multiset().insert(
                TrendEntry {
                    check_due_at: spec_due_at(candidate.created_at, delay_ms, 0) as i64,
                    tweet_id: candidate.tweet_id,
                    created_at: candidate.created_at,
                    config: config,
                    previous_score_milli: 0,
                    penalty: 0,
                },
            ),
    {
        let check_due_at = schedule_due(candidate.created_at, delay_ms, 0);
        let TrendCandidate { tweet_id, created_at, followers_count: _ } = candidate;
        self.push(
            TrendEntry {
                check_due_at,
                tweet_id,
                created_at,
                config,
                previous_score_milli: 0,
                penalty: 0,
            },
        );
    }

    /// Re-tracks an entry after a check that kept it: the penalty is updated
    /// from the score delta, and the next check is scheduled relative to
    /// `now_ms` with the penalty-stretched delay.
    pub fn reinsert(&mut self, entry: TrendEntry, score_milli: i64, now_ms: i64, delay_ms: u64)
        requires
            old(self).well_formed(),
            old(self).entries@.len() < usize::MAX,
            now_ms >= 0,
            score_milli >= 0,
            entry.previous_score_milli >= 0,
        ensures
            final(self).well_formed(),
            final(self).entries@.len() == old(self).entries@.len() + 1,
            final(self).entries@.to_multiset() == old(self).entries@.to_multiset().insert(
                {
                    let p = spec_next_penalty(
                        entry.penalty,
                        score_milli - entry.previous_score_milli < SCORE_DELTA_FLOOR_MILLI,
                    );
                    TrendEntry {
                        check_due_at: spec_due_at(now_ms, delay_ms, p) as i64,
                        tweet_id: entry.tweet_id,
                        created_at: entry.created_at,
                        config: entry.config,
                        previous_score_milli: score_milli,
                        penalty: p,
                    }
                },
            ),
    {
        let delta_small = score_milli - entry.previous_score_milli < SCORE_DELTA_FLOOR_MILLI;
        let penalty = next_penalty(entry.penalty, delta_small);
        let check_due_at = schedule_due(now_ms, delay_ms, penalty);
        let TrendEntry { check_due_at: _, tweet_id, created_at, config, previous_score_milli: _, penalty: _ } =
            entry;
        self.push(
            TrendEntry {
                check_due_at,
                tweet_id,
                created_at,
                config,
                previous_score_milli: score_milli,
                penalty,
            },
        );
    }
}

/// What a tick does with one due entry once its current state is known.
#[derive(Debug, Copy, Clone, Eq, PartialEq, Structural)]
pub enum TrendAction {
    /// Already emitted earlier (found in the cache): stop tracking, write
    /// nothing, call no webhook.
    Drop,
    /// Score reached the threshold: emit to the configured webhooks and
    /// persist tweet, author and media to the cache.
    Promote,
    /// Too old for its score: stop tracking, write nothing.
    Evict,
    /// Keep tracking: schedule a re-poll.
    Reinsert,
}

/// The tick decision for one due entry. `age_ms` is `now` minus the tweet's
/// creation time.
pub open spec fn spec_trend_decide(
    cached: bool,
    score_milli: i64,
    threshold_milli: i64,
    age_ms: i64,
) -> TrendAction {
    if cached {
        TrendAction::Drop
    } else if score_milli >= threshold_milli {
        TrendAction::Promote
    } else if (score_milli < 10 && age_ms >= HOURS_3_MS) || (score_milli < 2000 && age_ms
        >= HOURS_12_MS) || age_ms >= DAYS_3_MS {
        TrendAction::Evict
    } else {
        TrendAction::Reinsert
    }
}

/// Decides what a tick does with one due entry: drop it when its tweet is
/// already cached, promote it at or above the threshold, evict it by the
/// age/score rule, otherwise re-poll it later.
pub fn trend_decide(cached: bool, score_milli: i64, threshold_milli: i64, age_ms: i64) -> (r:
    TrendAction)
    ensures
        r == spec_trend_decide(cached, score_milli, threshold_milli, age_ms),
        cached ==> r is Drop,
        (!cached && score_milli >= threshold_milli) ==> r is Promote,
{
    if cached {
        TrendAction::Drop
    } else if score_milli >= threshold_milli {
        TrendAction::Promote
    } else if (score_milli < 10 && age_ms >= HOURS_3_MS) || (score_milli < 2000 && age_ms
        >= HOURS_12_MS) || age_ms >= DAYS_3_MS {
        TrendAction::Evict
    } else {
        TrendAction::Reinsert
    }
}

/// Cache idempotence on the trend path: a due tweet that is already in the
/// cache is always dropped from tracking — never promoted (no webhook
/// calls), never stored again, never re-polled — whatever its score or age.
pub proof fn lemma_cached_tweet_dropped(score_milli: i64, threshold_milli: i64, age_ms: i64)
    ensures
        spec_trend_decide(true, score_milli, threshold_milli, age_ms) is Drop,
{
}

impl TrendHeap {
    /// One tick step for a due entry whose current state is known: returns
    /// the decision, and re-tracks the entry (with the updated penalty and
    /// the next check scheduled from `now_ms`) exactly when the decision is
    /// `Reinsert`. On every other decision the heap is left untouched: a
    /// cached, promoted or evicted tweet leaves tracking for good.
    pub fn apply_decision(
        &mut self,
        entry: TrendEntry,
        cached: bool,
        score_milli: i64,
        now_ms: i64,
        delay_ms: u64,
    ) -> (r: TrendAction)
        requires
            old(self).well_formed(),
            old(self).entries@.len() < usize::MAX,
            now_ms >= 0,
            score_milli >= 0,
            entry.previous_score_milli >= 0,
            entry.created_at >= 0,
        ensures
            final(self).well_formed(),
            r == spec_trend_decide(
                cached,
                score_milli,
                entry.config.score_threshold_milli,
                (now_ms - entry.created_at) as i64,
            ),
            cached ==> r is Drop,
            r is Reinsert ==> final(self).entries@.to_multiset() == old(
                self,
            ).entries@.to_multiset().insert(
                {
                    let p = spec_next_penalty(
                        entry.penalty,
                        score_milli - entry.previous_score_milli < SCORE_DELTA_FLOOR_MILLI,
                    );
                    TrendEntry {
                        check_due_at: spec_due_at(now_ms, delay_ms, p) as i64,
                        tweet_id: entry.tweet_id,
                        created_at: entry.created_at,
                        config: entry.config,
                        previous_score_milli: score_milli,
                        penalty: p,
                    }
                },
            ),
            !(r is Reinsert) ==> *final(self) == *old(self),
    {
        let age_ms = now_ms - entry.created_at;
        let action = trend_decide(cached, score_milli, entry.config.score_threshold_milli, age_ms);
        if matches!(action, TrendAction::Reinsert) {
            self.reinsert(entry, score_milli, now_ms, delay_ms);
        }
        action
    }
}

} // verus!
