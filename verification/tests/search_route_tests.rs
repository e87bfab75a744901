use tweet_broadcast::model::{
    Attachments, Entities, ListMeta, ListMetaInner, MatchingRule, Media, MediaType,
    ResponseIncludes, ResponseItem, SearchMeta, SearchMetaInner, StreamMeta, Tweet,
    TweetReferenceType, ReferencedTweet, User,
};
use tweet_broadcast::route::{build_route_payload, stream_plan, CacheData};
use tweet_broadcast::search::{search_max_results, SearchHead};

fn tweet(id: &str, author: &str) -> Tweet {
    Tweet {
        id: id.to_string(),
        text: String::new(),
        created_at: Some(1_700_000_000_000),
        author_id: Some(author.to_string()),
        entities: Entities::default(),
        attachments: Attachments::default(),
        public_metrics: None,
        possibly_sensitive: None,
        referenced_tweets: Vec::new(),
    }
}

fn user(id: &str, handle: &str) -> User {
    User {
        id: id.to_string(),
        name: handle.to_uppercase(),
        username: handle.to_string(),
        profile_image_url: None,
        public_metrics: None,
    }
}

fn search_meta(newest: Option<&str>, next: Option<&str>) -> SearchMeta {
    SearchMeta {
        meta: SearchMetaInner {
            result_count: 1,
            newest_id: newest.map(|s| s.to_string()),
            oldest_id: None,
            next_token: next.map(|s| s.to_string()),
        },
    }
}

#[test]
fn pager_sweep_fixes_newest_and_follows_tokens() {
    let head = SearchHead::new("cats".to_string(), Some("100".to_string()));
    assert_eq!(head.term(), "cats");
    assert!(!head.is_unbound());
    let mut pager = head.pager();
    assert!(!pager.is_unbound());
    assert!(pager.has_next());
    assert!(pager.current_token().is_none());

    pager.absorb_page(&search_meta(Some("150"), Some("tokA")));
    assert_eq!(pager.current_token(), Some("tokA"));
    // Later pages are older: the newest ID of the sweep stays fixed.
    pager.absorb_page(&search_meta(Some("140"), None));
    assert!(!pager.has_next());

    let mut head = head;
    pager.apply_head(&mut head);
    assert_eq!(head.head(), Some("150"));
}

#[test]
fn empty_sweep_leaves_cursor_alone() {
    let mut head = SearchHead::new("dogs".to_string(), Some("100".to_string()));
    let mut pager = head.pager();
    pager.absorb_page(&search_meta(None, None));
    pager.apply_head(&mut head);
    assert_eq!(head.head(), Some("100"));
}

#[test]
fn page_sizes_depend_on_cursor_state() {
    assert_eq!(search_max_results(true), 20);
    assert_eq!(search_max_results(false), 100);
}

#[test]
fn list_meta_getters() {
    let meta = ListMeta {
        meta: ListMetaInner {
            result_count: 5,
            previous_token: None,
            next_token: Some("nt".to_string()),
        },
    };
    assert_eq!(meta.result_count(), 5);
    assert_eq!(meta.previous_token(), None);
    assert_eq!(meta.next_token(), Some("nt"));
}

#[test]
fn payload_for_plain_tweet() {
    let mut data = tweet("42", "u1");
    data.attachments.media_keys.push("m1".to_string());
    let mut includes = ResponseIncludes::default();
    includes.users.push(user("u1", "ada"));
    includes.media.push(Media {
        media_key: "m1".to_string(),
        width: 10,
        height: 20,
        ty: MediaType::Photo,
        url: None,
        preview_image_url: None,
    });
    let res: ResponseItem<Tweet, StreamMeta> = ResponseItem {
        data,
        includes,
        meta: StreamMeta {
            matching_rules: vec![MatchingRule {
                id: "r1".to_string(),
                tag: "cats".to_string(),
            }],
        },
    };
    let payload = build_route_payload(&res, 12_345, false);
    assert_eq!(payload.tweet.id(), "42");
    assert_eq!(payload.author.username(), "ada");
    assert!(payload.original_tweet.is_none());
    assert!(payload.original_author.is_none());
    assert_eq!(payload.media.len(), 1);
    assert_eq!(payload.media[0].key(), "m1");
    assert_eq!(payload.tags, vec!["cats".to_string()]);
    assert_eq!(payload.score_milli, 12_345);
    assert!(!payload.cached);

    let record = CacheData::from_payload(&payload);
    assert_eq!(record.tweet_id, "42");
    assert_eq!(record.author_id, "u1");
    assert!(record.target_tweet_id.is_none());
    assert!(record.target_author_id.is_none());
    assert_eq!(record.media_keys, vec!["m1".to_string()]);
    assert_eq!(record.score_milli, 12_345);
    assert_eq!(record.tags, vec!["cats".to_string()]);
}

#[test]
fn payload_for_retweet_names_wrapper_and_source() {
    let mut wrapper = tweet("50", "u2");
    wrapper.referenced_tweets.push(ReferencedTweet {
        ty: TweetReferenceType::Retweeted,
        id: "42".to_string(),
    });
    let mut includes = ResponseIncludes::default();
    includes.tweets.push(tweet("42", "u1"));
    includes.users.push(user("u1", "ada"));
    includes.users.push(user("u2", "bob"));
    let res: ResponseItem<Tweet, StreamMeta> = ResponseItem {
        data: wrapper,
        includes,
        meta: StreamMeta { matching_rules: Vec::new() },
    };
    let payload = build_route_payload(&res, 0, true);
    assert_eq!(payload.tweet.id(), "42");
    assert_eq!(payload.author.id(), "u1");
    assert_eq!(payload.original_tweet.unwrap().id(), "50");
    assert_eq!(payload.original_author.unwrap().id(), "u2");
    assert!(payload.cached);

    let record = CacheData::from_payload(&payload);
    // Keyed by the delivered wrapper, naming the source as target.
    assert_eq!(record.tweet_id, "50");
    assert_eq!(record.author_id, "u2");
    assert_eq!(record.target_tweet_id.as_deref(), Some("42"));
    assert_eq!(record.target_author_id.as_deref(), Some("u1"));
}

#[test]
fn stream_plan_stores_only_fresh_deliveries() {
    let plan = stream_plan(0, false);
    assert!(!plan.deliver);
    assert!(!plan.store);
    let plan = stream_plan(2, false);
    assert!(plan.deliver);
    assert!(plan.store);
    // A cached tweet is delivered but not re-persisted.
    let plan = stream_plan(1, true);
    assert!(plan.deliver);
    assert!(!plan.store);
}
