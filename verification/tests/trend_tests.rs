use tweet_broadcast::model::{
    Attachments, Entities, ResponseIncludes, Tweet, User, UserPublicMetrics,
};
use tweet_broadcast::trend::{
    next_penalty, schedule_due, trend_candidate, trend_decide, SearchTermConfig, TrendAction,
    TrendEntry, TrendHeap, DAYS_3_MS, HOURS_12_MS, HOURS_3_MS,
};

fn config() -> SearchTermConfig {
    SearchTermConfig {
        id: "t1".to_string(),
        term: "kittens".to_string(),
        trending: true,
        score_threshold_milli: 15_000,
        webhooks: vec!["https://hook/1".to_string()],
    }
}

fn entry(id: &str, due: i64) -> TrendEntry {
    TrendEntry {
        check_due_at: due,
        tweet_id: id.to_string(),
        created_at: 0,
        config: config(),
        previous_score_milli: 0,
        penalty: 0,
    }
}

#[test]
fn heap_pops_in_nondecreasing_due_order() {
    let mut heap = TrendHeap::new();
    for (id, due) in [("a", 50i64), ("b", 10), ("c", 90), ("d", 10), ("e", 70)] {
        heap.push(entry(id, due));
    }
    assert_eq!(heap.len(), 5);
    let mut last = i64::MIN;
    let mut popped = 0;
    while let Some(e) = heap.pop_due(i64::MAX) {
        assert!(e.check_due_at >= last);
        last = e.check_due_at;
        popped += 1;
    }
    assert_eq!(popped, 5);
    assert_eq!(heap.len(), 0);
}

#[test]
fn pop_due_respects_the_clock() {
    let mut heap = TrendHeap::new();
    heap.push(entry("a", 100));
    heap.push(entry("b", 50));
    let e = heap.pop_due(60).unwrap();
    assert_eq!(e.tweet_id, "b");
    assert!(heap.pop_due(60).is_none());
    assert_eq!(heap.len(), 1);
    let e = heap.pop_due(100).unwrap();
    assert_eq!(e.tweet_id, "a");
}

#[test]
fn penalty_doubles_while_score_stalls() {
    // After N stalled re-polls the penalty is exactly min(2^(N-1), u32::MAX).
    let mut p = 0u32;
    let mut expected = 1u64;
    for _ in 0..12 {
        p = next_penalty(p, true);
        assert_eq!(p as u64, expected);
        expected *= 2;
    }
    // Saturation at the top.
    let p = next_penalty(u32::MAX / 2 + 1, true);
    assert_eq!(p, u32::MAX);
    let p = next_penalty(u32::MAX, true);
    assert_eq!(p, u32::MAX);
}

#[test]
fn penalty_decays_by_two_with_floor_zero() {
    assert_eq!(next_penalty(8, false), 6);
    assert_eq!(next_penalty(2, false), 0);
    assert_eq!(next_penalty(1, false), 0);
    assert_eq!(next_penalty(0, false), 0);
}

#[test]
fn schedule_due_stretches_by_penalty() {
    assert_eq!(schedule_due(1_000, 600, 0), 1_600);
    assert_eq!(schedule_due(1_000, 600, 3), 3_400);
    assert_eq!(schedule_due(i64::MAX - 10, 600, 0), i64::MAX);
    assert_eq!(schedule_due(0, u64::MAX, u32::MAX), i64::MAX);
}

#[test]
fn cached_tweets_are_dropped() {
    // A tweet already in the cache causes no webhook and no store,
    // whatever its score or age.
    assert_eq!(trend_decide(true, 99_000, 15_000, 0), TrendAction::Drop);
    assert_eq!(trend_decide(true, 0, 15_000, DAYS_3_MS), TrendAction::Drop);
}

#[test]
fn threshold_promotes() {
    // Score 20.0 over threshold 15.0, age 90 minutes.
    assert_eq!(trend_decide(false, 20_000, 15_000, 90 * 60_000), TrendAction::Promote);
    assert_eq!(trend_decide(false, 15_000, 15_000, 0), TrendAction::Promote);
}

#[test]
fn age_and_score_evict() {
    // Score 0.5 at age 4 h: no eviction clause fires yet; at 12 h the
    // below-2.0 clause evicts it with no cache write and no webhook.
    assert_eq!(trend_decide(false, 500, 15_000, 4 * 3_600_000), TrendAction::Reinsert);
    assert_eq!(trend_decide(false, 500, 15_000, HOURS_12_MS), TrendAction::Evict);
    // Score below 0.01 already evicts at 3 h.
    assert_eq!(trend_decide(false, 9, 15_000, HOURS_3_MS), TrendAction::Evict);
    assert_eq!(trend_decide(false, 9, 15_000, HOURS_3_MS - 1), TrendAction::Reinsert);
    // Any score below the threshold evicts after 3 days.
    assert_eq!(trend_decide(false, 14_999, 15_000, DAYS_3_MS), TrendAction::Evict);
    // Between the age fences the tweet is re-polled.
    assert_eq!(trend_decide(false, 2_500, 15_000, HOURS_12_MS), TrendAction::Reinsert);
}

#[test]
fn candidate_rejects_retweets_and_incomplete_tweets() {
    let mut t = Tweet {
        id: "1".to_string(),
        text: String::new(),
        created_at: Some(1_000),
        author_id: Some("u1".to_string()),
        entities: Entities::default(),
        attachments: Attachments::default(),
        public_metrics: None,
        possibly_sensitive: None,
        referenced_tweets: Vec::new(),
    };
    let mut inc = ResponseIncludes::default();
    // Author not resolvable yet.
    assert!(trend_candidate(&t, &inc).is_none());
    inc.users.push(User {
        id: "u1".to_string(),
        name: "Ada".to_string(),
        username: "ada".to_string(),
        profile_image_url: None,
        public_metrics: Some(UserPublicMetrics {
            followers_count: 10_000,
            following_count: 10,
            tweet_count: 1,
            listed_count: 0,
        }),
    });
    let c = trend_candidate(&t, &inc).unwrap();
    assert_eq!(c.tweet_id, "1");
    assert_eq!(c.created_at, 1_000);
    assert_eq!(c.followers_count, 10_000);
    // No creation time: rejected.
    t.created_at = None;
    assert!(trend_candidate(&t, &inc).is_none());
}

#[test]
fn insert_and_reinsert_schedule_checks() {
    let mut heap = TrendHeap::new();
    let cand = tweet_broadcast::trend::TrendCandidate {
        tweet_id: "9".to_string(),
        created_at: 500,
        followers_count: 100,
    };
    heap.insert_candidate(cand, config(), 60_000);
    assert_eq!(heap.len(), 1);
    let e = heap.pop_due(i64::MAX).unwrap();
    assert_eq!(e.tweet_id, "9");
    assert_eq!(e.check_due_at, 60_500);
    assert_eq!(e.penalty, 0);
    assert_eq!(e.previous_score_milli, 0);

    // Re-poll with a stalled score: penalty becomes 1, delay doubles.
    heap.reinsert(e, 400, 100_000, 30_000);
    let e = heap.pop_due(i64::MAX).unwrap();
    assert_eq!(e.penalty, 1);
    assert_eq!(e.previous_score_milli, 400);
    assert_eq!(e.check_due_at, 100_000 + 30_000 * 2);

    // Re-poll with a clear improvement: penalty drops back to 0.
    heap.reinsert(e, 5_000, 200_000, 30_000);
    let e = heap.pop_due(i64::MAX).unwrap();
    assert_eq!(e.penalty, 0);
    assert_eq!(e.check_due_at, 230_000);
}

#[test]
fn tick_step_retracks_only_reinserted_entries() {
    let mut heap = TrendHeap::new();
    // A cached tweet is dropped: the heap stays empty, nothing is
    // re-tracked.
    let a = heap.apply_decision(entry("a", 0), true, 99_000, 1_000, 10);
    assert_eq!(a, TrendAction::Drop);
    assert_eq!(heap.len(), 0);
    // An evicted tweet leaves tracking too.
    let a = heap.apply_decision(entry("b", 0), false, 9, 1_000 + HOURS_3_MS, 10);
    assert_eq!(a, TrendAction::Evict);
    assert_eq!(heap.len(), 0);
    // A kept tweet is re-tracked with its re-poll schedule.
    let a = heap.apply_decision(entry("c", 0), false, 500, 1_000, 10);
    assert_eq!(a, TrendAction::Reinsert);
    assert_eq!(heap.len(), 1);
    let e = heap.pop_due(i64::MAX).unwrap();
    assert_eq!(e.tweet_id, "c");
    assert_eq!(e.penalty, 1);
    assert_eq!(e.check_due_at, 1_000 + 10 * 2);
}
