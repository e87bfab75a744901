use tweet_broadcast::cache::{cursor_path, entity_path, CursorKind, EntityKind};
use tweet_broadcast::model::{
    Attachments, Entities, Media, MediaType, ResponseIncludes, ResponseItem, StreamMeta, Tweet,
    TweetPublicMetrics, TweetReferenceType, ReferencedTweet, TwitterError, ResponseError, User,
    UserPublicMetrics,
};

fn tweet(id: &str, author: &str) -> Tweet {
    Tweet {
        id: id.to_string(),
        text: String::new(),
        created_at: None,
        author_id: Some(author.to_string()),
        entities: Entities::default(),
        attachments: Attachments::default(),
        public_metrics: None,
        possibly_sensitive: None,
        referenced_tweets: Vec::new(),
    }
}

fn user(id: &str, name: &str, handle: &str) -> User {
    User {
        id: id.to_string(),
        name: name.to_string(),
        username: handle.to_string(),
        profile_image_url: None,
        public_metrics: None,
    }
}

fn media(key: &str, url: Option<&str>, preview: Option<&str>) -> Media {
    Media {
        media_key: key.to_string(),
        width: 640,
        height: 480,
        ty: MediaType::Photo,
        url: url.map(|s| s.to_string()),
        preview_image_url: preview.map(|s| s.to_string()),
    }
}

#[test]
fn tweet_getters_reflect_fields() {
    let mut t = tweet("42", "7");
    t.text = "a &lt;b&gt;".to_string();
    t.created_at = Some(1_600_000_000_000);
    t.public_metrics = Some(TweetPublicMetrics {
        reply_count: 1,
        retweet_count: 2,
        quote_count: 3,
        like_count: 4,
    });
    assert_eq!(t.id(), "42");
    assert_eq!(t.raw_text(), "a &lt;b&gt;");
    assert_eq!(t.unescaped_text(), "a <b>");
    assert_eq!(t.created_at(), Some(1_600_000_000_000));
    assert_eq!(t.author_id(), Some("7"));
    assert!(!t.possibly_sensitive());
    assert_eq!(t.metrics().unwrap().like_count, 4);
    assert!(t.media_keys().is_empty());
}

#[test]
fn retweet_source_finds_first_retweeted_reference() {
    let mut t = tweet("1", "2");
    assert_eq!(t.get_retweet_source(), None);
    t.referenced_tweets.push(ReferencedTweet {
        ty: TweetReferenceType::Quoted,
        id: "5".to_string(),
    });
    t.referenced_tweets.push(ReferencedTweet {
        ty: TweetReferenceType::Retweeted,
        id: "6".to_string(),
    });
    assert_eq!(t.get_retweet_source(), Some("6"));
    assert_eq!(t.referenced_tweets()[0].ref_type(), TweetReferenceType::Quoted);
    assert_eq!(t.referenced_tweets()[1].id(), "6");
}

#[test]
fn includes_lookup_finds_first_match() {
    let mut inc = ResponseIncludes::default();
    inc.tweets.push(tweet("10", "a"));
    inc.users.push(user("a", "Ada", "ada"));
    inc.media.push(media("m1", Some("https://img/x.jpg?name=small"), None));
    assert_eq!(inc.get_tweet("10").unwrap().id(), "10");
    assert!(inc.get_tweet("11").is_none());
    assert_eq!(inc.get_user("a").unwrap().username(), "ada");
    assert!(inc.get_user("b").is_none());
    assert_eq!(inc.get_media("m1").unwrap().width(), 640);
    assert!(inc.get_media("m2").is_none());
}

#[test]
fn augment_appends_and_keeps_order() {
    let mut inc = ResponseIncludes::default();
    inc.tweets.push(tweet("1", "a"));
    let mut extra = ResponseIncludes::default();
    extra.tweets.push(tweet("2", "b"));
    extra.users.push(user("b", "Bee", "bee"));
    inc.augment(extra);
    assert_eq!(inc.tweets.len(), 2);
    assert_eq!(inc.tweets[0].id(), "1");
    assert_eq!(inc.tweets[1].id(), "2");
    assert_eq!(inc.users.len(), 1);
    // Lookups made before the augment still resolve to the same entry.
    assert_eq!(inc.get_tweet("1").unwrap().id(), "1");
}

#[test]
fn take_augment_drains_the_other_bundle() {
    let mut a: ResponseItem<Vec<Tweet>, Option<()>> = ResponseItem {
        data: Vec::new(),
        includes: ResponseIncludes::default(),
        meta: None,
    };
    let mut b: ResponseItem<Vec<Tweet>, Option<()>> = ResponseItem {
        data: Vec::new(),
        includes: ResponseIncludes::default(),
        meta: None,
    };
    b.includes.users.push(user("u", "U", "u"));
    a.take_augment(&mut b);
    assert_eq!(a.includes.users.len(), 1);
    assert!(b.includes.users.is_empty());
}

#[test]
fn take_meta_splits_the_bundle() {
    let item: ResponseItem<Vec<Tweet>, StreamMeta> = ResponseItem {
        data: vec![tweet("1", "a")],
        includes: ResponseIncludes::default(),
        meta: StreamMeta { matching_rules: Vec::new() },
    };
    let (bare, meta) = item.take_meta();
    assert_eq!(bare.data.len(), 1);
    assert!(bare.meta.is_none());
    assert!(meta.matching_rules().is_empty());
}

#[test]
fn media_url_orig_overrides_size_query() {
    let m = media("m", Some("https://img/x.jpg?name=small"), None);
    assert_eq!(m.url_orig().unwrap(), "https://img/x.jpg?name=orig");
    let m = media("m", Some("https://img/x.jpg"), None);
    assert_eq!(m.url_orig().unwrap(), "https://img/x.jpg?name=orig");
    let m = media("m", None, Some("https://img/prev.jpg"));
    assert_eq!(m.url_orig().unwrap(), "https://img/prev.jpg");
    assert_eq!(m.url().unwrap(), "https://img/prev.jpg");
    let m = media("m", None, None);
    assert!(m.url_orig().is_none());
}

#[test]
fn profile_image_url_orig_strips_size_marker() {
    let mut u = user("1", "Ada", "ada");
    u.profile_image_url = Some("https://pbs/img/abc_normal.jpg".to_string());
    assert_eq!(u.profile_image_url_orig().unwrap(), "https://pbs/img/abc.jpg");
    u.profile_image_url = None;
    assert!(u.profile_image_url_orig().is_none());
}

#[test]
fn response_error_message_joins_details() {
    let err = ResponseError {
        errors: vec![
            TwitterError {
                title: "t1".to_string(),
                detail: "first problem".to_string(),
                ty: "x".to_string(),
            },
            TwitterError {
                title: "t2".to_string(),
                detail: "second problem".to_string(),
                ty: "y".to_string(),
            },
        ],
    };
    assert_eq!(err.message(), "first problem second problem");
    let empty = ResponseError { errors: Vec::new() };
    assert_eq!(empty.message(), "");
}

#[test]
fn user_metrics_expose_counts() {
    let mut u = user("1", "Ada", "ada");
    u.public_metrics = Some(UserPublicMetrics {
        followers_count: 10_000,
        following_count: 100,
        tweet_count: 5,
        listed_count: 1,
    });
    assert_eq!(u.metrics().unwrap().followers_count, 10_000);
    assert_eq!(u.id(), "1");
    assert_eq!(u.name(), "Ada");
}

#[test]
fn cache_paths_follow_the_layout() {
    assert_eq!(entity_path(EntityKind::Tweet, "42"), "tweets/42.json");
    assert_eq!(entity_path(EntityKind::User, "u1"), "users/u1.json");
    assert_eq!(entity_path(EntityKind::Media, "m1"), "media/m1.json");
    assert_eq!(entity_path(EntityKind::RouteDecision, "42"), "stream/42.json");
    assert_eq!(cursor_path(CursorKind::List, "L1"), "lists/L1");
    assert_eq!(cursor_path(CursorKind::Timeline, "U1"), "users/U1");
}
