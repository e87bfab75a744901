use tweet_broadcast::augment::{augment_ids, needs_augment};
use tweet_broadcast::model::{
    Attachments, Entities, Media, MediaType, ResponseIncludes, Tweet, TweetReferenceType,
    ReferencedTweet,
};

fn tweet_with_media(id: &str, keys: &[&str]) -> Tweet {
    Tweet {
        id: id.to_string(),
        text: String::new(),
        created_at: None,
        author_id: None,
        entities: Entities::default(),
        attachments: Attachments {
            media_keys: keys.iter().map(|k| k.to_string()).collect(),
        },
        public_metrics: None,
        possibly_sensitive: None,
        referenced_tweets: Vec::new(),
    }
}

fn media(key: &str) -> Media {
    Media {
        media_key: key.to_string(),
        width: 1,
        height: 1,
        ty: MediaType::Photo,
        url: None,
        preview_image_url: None,
    }
}

#[test]
fn complete_tweet_needs_nothing() {
    let t = tweet_with_media("1", &["m1"]);
    let mut inc = ResponseIncludes::default();
    inc.media.push(media("m1"));
    assert!(needs_augment(&t, &inc).is_none());
}

#[test]
fn missing_media_names_the_tweet() {
    let t = tweet_with_media("1", &["m1", "m2"]);
    let mut inc = ResponseIncludes::default();
    inc.media.push(media("m1"));
    assert_eq!(needs_augment(&t, &inc).unwrap(), "1");
}

#[test]
fn retweet_checks_the_source_tweet() {
    let mut wrapper = tweet_with_media("2", &[]);
    wrapper.referenced_tweets.push(ReferencedTweet {
        ty: TweetReferenceType::Retweeted,
        id: "1".to_string(),
    });
    let source = tweet_with_media("1", &["m9"]);
    let mut inc = ResponseIncludes::default();
    inc.tweets.push(source);
    // The source's media is missing: the source's ID is reported.
    assert_eq!(needs_augment(&wrapper, &inc).unwrap(), "1");
    inc.media.push(media("m9"));
    assert!(needs_augment(&wrapper, &inc).is_none());
}

#[test]
fn augment_ids_collects_in_batch_order() {
    let tweets = vec![
        tweet_with_media("1", &["a"]),
        tweet_with_media("2", &[]),
        tweet_with_media("3", &["b"]),
    ];
    let inc = ResponseIncludes::default();
    let ids = augment_ids(&tweets, &inc);
    assert_eq!(ids, vec!["1".to_string(), "3".to_string()]);
}

#[test]
fn augment_is_idempotent() {
    // One augmentation pass that supplies the missing media leaves nothing
    // for a second pass to retrieve.
    let tweets = vec![tweet_with_media("1", &["a"]), tweet_with_media("2", &["b"])];
    let mut inc = ResponseIncludes::default();
    inc.media.push(media("a"));
    let first = augment_ids(&tweets, &inc);
    assert_eq!(first, vec!["2".to_string()]);

    // The provider answers the retrieve with the missing media.
    let mut extra = ResponseIncludes::default();
    extra.media.push(media("b"));
    inc.augment(extra);

    let second = augment_ids(&tweets, &inc);
    assert!(second.is_empty());
}
