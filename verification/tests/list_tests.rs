use tweet_broadcast::list::{
    catchup_message, first_time_message, list_max_results, list_notice, reverse_tweets,
    should_fetch_next_page, take_newer, timeline_max_results, ListHead, ListNotice,
    UserTimelineHead,
};
use tweet_broadcast::model::{Attachments, Entities, Tweet};

fn tweet(id: &str) -> Tweet {
    Tweet {
        id: id.to_string(),
        text: String::new(),
        created_at: None,
        author_id: None,
        entities: Entities::default(),
        attachments: Attachments::default(),
        public_metrics: None,
        possibly_sensitive: None,
        referenced_tweets: Vec::new(),
    }
}

fn ids(tweets: &[Tweet]) -> Vec<&str> {
    tweets.iter().map(|t| t.id()).collect()
}

#[test]
fn take_newer_keeps_the_newer_prefix() {
    // Server order is newest first; the filter stops at the cursor.
    let page = vec![
        tweet("150"),
        tweet("140"),
        tweet("130"),
        tweet("120"),
        tweet("110"),
        tweet("105"),
    ];
    let kept = take_newer(page, "100");
    assert_eq!(ids(&kept), ["150", "140", "130", "120", "110", "105"]);

    let page = vec![tweet("150"), tweet("140"), tweet("100"), tweet("090")];
    let kept = take_newer(page, "100");
    assert_eq!(ids(&kept), ["150", "140"]);

    let page = vec![tweet("090")];
    assert!(take_newer(page, "100").is_empty());
}

#[test]
fn reverse_restores_chronological_order() {
    let page = vec![tweet("3"), tweet("2"), tweet("1")];
    let chrono = reverse_tweets(page);
    assert_eq!(ids(&chrono), ["1", "2", "3"]);
    assert!(reverse_tweets(Vec::new()).is_empty());
}

#[test]
fn fetch_sizes_follow_cursor_state() {
    assert_eq!(list_max_results(false, true), 1);
    assert_eq!(list_max_results(false, false), 1);
    assert_eq!(list_max_results(true, true), 100);
    assert_eq!(list_max_results(true, false), 5);
    assert_eq!(timeline_max_results(true, true), 100);
    assert_eq!(timeline_max_results(true, false), 5);
    assert_eq!(timeline_max_results(false, true), 5);
}

#[test]
fn pagination_continues_only_on_full_pages_with_token() {
    assert!(should_fetch_next_page(5, 5, true));
    assert!(!should_fetch_next_page(5, 5, false));
    assert!(!should_fetch_next_page(4, 5, true));
    assert!(!should_fetch_next_page(6, 5, true));
}

#[test]
fn cursor_moves_to_last_of_batch() {
    let mut head = ListHead::new("L1".to_string(), Some("100".to_string()));
    assert_eq!(head.id(), "L1");
    assert_eq!(head.head(), Some("100"));
    // Chronological batch, newest last.
    let batch = vec![tweet("105"), tweet("110"), tweet("150")];
    head.update_from_batch(&batch);
    assert_eq!(head.head(), Some("150"));
    // An empty batch leaves the cursor alone.
    head.update_from_batch(&Vec::new());
    assert_eq!(head.head(), Some("150"));
}

#[test]
fn cursor_initializes_from_first_batch() {
    let mut head = UserTimelineHead::new("U9".to_string(), None);
    assert_eq!(head.head(), None);
    let batch = vec![tweet("42")];
    head.update_from_batch(&batch);
    assert_eq!(head.head(), Some("42"));
    assert_eq!(head.id(), "U9");
}

#[test]
fn catchup_skips_large_batches() {
    // Catch-up with more than five tweets sends one skip notice.
    assert_eq!(list_notice(true, false, 6), ListNotice::Skip);
    assert_eq!(list_notice(true, false, 5), ListNotice::PerTweet);
    // First tick of a fresh cursor sends one initialized notice.
    assert_eq!(list_notice(false, true, 1), ListNotice::Initialized);
    assert_eq!(list_notice(true, true, 1), ListNotice::Initialized);
    // Steady state broadcasts per tweet.
    assert_eq!(list_notice(false, false, 3), ListNotice::PerTweet);
}

#[test]
fn notices_render_exactly() {
    assert_eq!(
        catchup_message("L1", 6),
        "Skipping 6 tweets of list `L1` during list catch-up"
    );
    assert_eq!(
        catchup_message("L1", 1),
        "Skipping 1 tweet of list `L1` during list catch-up"
    );
    assert_eq!(first_time_message("L2"), "List `L2` initialized");
}

#[test]
fn catch_up_filter_scenario() {
    // A list with prior head "100"; the catch-up fetch returns six newer
    // IDs, server-newest-first. One skip notice is sent instead of six
    // messages, and the head moves to "150".
    let mut head = ListHead::new("L1".to_string(), Some("100".to_string()));
    let page = vec![
        tweet("150"),
        tweet("140"),
        tweet("130"),
        tweet("120"),
        tweet("110"),
        tweet("105"),
    ];
    let kept = take_newer(page, head.head().unwrap());
    let chrono = reverse_tweets(kept);
    assert_eq!(ids(&chrono), ["105", "110", "120", "130", "140", "150"]);
    head.update_from_batch(&chrono);
    assert_eq!(head.head(), Some("150"));
    assert_eq!(list_notice(true, false, chrono.len()), ListNotice::Skip);
    assert_eq!(
        catchup_message(head.id(), chrono.len() as u64),
        "Skipping 6 tweets of list `L1` during list catch-up"
    );
}

#[test]
fn first_time_init_scenario() {
    // A fresh cursor fetches one tweet, sends one initialized notice, and
    // records the ID as the new head.
    let mut head = ListHead::new("L2".to_string(), None);
    assert_eq!(list_max_results(head.head().is_some(), true), 1);
    let batch = reverse_tweets(vec![tweet("42")]);
    head.update_from_batch(&batch);
    assert_eq!(head.head(), Some("42"));
    assert_eq!(list_notice(true, true, batch.len()), ListNotice::Initialized);
    assert_eq!(first_time_message(head.id()), "List `L2` initialized");
}
