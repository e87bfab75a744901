//! Augmenter: finds tweets of a batch whose media objects are missing from
//! the includes, so the caller can back-fill them with one bulk retrieve
//! and fold the result in via `ResponseIncludes::augment`.

use vstd::prelude::*;

use crate::model::{
    spec_find_media, spec_find_tweet, Media, ResponseIncludes, Tweet,
};

verus! {

/// The retweet source of `tweet`, when there is one, can be looked up in
/// `includes`.
pub open spec fn retweet_resolvable(tweet: Tweet, includes: ResponseIncludes) -> bool {
    match tweet.spec_retweet_source() {
        Some(id) => includes.spec_get_tweet(id) is Some,
        None => true,
    }
}

/// The tweet whose media matter: the retweet source if the tweet is a
/// retweet, otherwise the tweet itself.
pub open spec fn spec_real_tweet(tweet: Tweet, includes: ResponseIncludes) -> Tweet
    recommends
        retweet_resolvable(tweet, includes),
{
    match tweet.spec_retweet_source() {
        Some(id) => includes.spec_get_tweet(id).unwrap(),
        None => tweet,
    }
}

/// Every media key of `t` resolves in `includes`.
pub open spec fn spec_media_complete(t: Tweet, includes: ResponseIncludes) -> bool {
    forall|k: int|
        0 <= k < t.attachments.media_keys@.len() ==> includes.spec_get_media(
            #[trigger] t.attachments.media_keys@[k]@,
        ) is Some
}

/// The ID to re-retrieve for one tweet: the real tweet's ID when one of its
/// media keys is missing from the includes, nothing otherwise.
pub open spec fn spec_needs_augment(tweet: Tweet, includes: ResponseIncludes) -> Option<Seq<char>>
    recommends
        retweet_resolvable(tweet, includes),
{
    let subject = spec_real_tweet(tweet, includes);
    if spec_media_complete(subject, includes) {
        None
    } else {
        Some(subject.id@)
    }
}

/// The IDs to re-retrieve for a whole batch, in batch order.
pub open spec fn spec_augment_ids(tweets: Seq<Tweet>, includes: ResponseIncludes) -> Seq<Seq<char>>
    decreases tweets.len(),
{
    if tweets.len() == 0 {
        Seq::empty()
    } else {
        match spec_needs_augment(tweets[0], includes) {
            Some(id) => seq![id] + spec_augment_ids(tweets.drop_first(), includes),
            None => spec_augment_ids(tweets.drop_first(), includes),
        }
    }
}

/// Decides whether one tweet needs its media back-filled; returns the ID to
/// retrieve again if so.
pub fn needs_augment(tweet: &Tweet, includes: &ResponseIncludes) -> (r: Option<String>)
    requires
        retweet_resolvable(*tweet, *includes),
    ensures
        r matches Some(s) ==> spec_needs_augment(*tweet, *includes) == Some(s@),
        r is None ==> spec_needs_augment(*tweet, *includes) is None,
{
    let subject: &Tweet = match tweet.get_retweet_source() {
        Some(rt_id) => includes.get_tweet(rt_id).unwrap(),
        None => tweet,
    };
    let n = subject.attachments.media_keys.len();
    let mut i: usize = 0;
    while i < n
        invariant
            0 <= i <= n,
            n == subject.attachments.media_keys@.len(),
            subject == spec_real_tweet(*tweet, *includes),
            forall|k: int|
                0 <= k < i ==> includes.spec_get_media(
                    #[trigger] subject.attachments.media_keys@[k]@,
                ) is Some,
        decreases n - i,
    {
        if includes.get_media(subject.attachments.media_keys[i].as_str()).is_none() {
            return Some(subject.id.clone());
        }
        i = i + 1;
    }
    None
}

/// Collects the IDs of all tweets of the batch whose media need
/// back-filling, in batch order. The caller bulk-retrieves these IDs and
/// folds the response's includes back in; an empty result means there is
/// nothing to fetch.
pub fn augment_ids(tweets: &Vec<Tweet>, includes: &ResponseIncludes) -> (r: Vec<String>)
    requires
        forall|i: int|
            0 <= i < tweets@.len() ==> retweet_resolvable(#[trigger] tweets@[i], *includes),
    ensures
        r@.map_values(|s: String| s@) == spec_augment_ids(tweets@, *includes),
{
    let n = tweets.len();
    let mut ids: Vec<String> = Vec::new();
    let mut i: usize = 0;
    proof {
        assert(tweets@.skip(0) =~= tweets@);
        assert(ids@.map_values(|s: String| s@) =~= Seq::<Seq<char>>::empty());
    }
    while i < n
        invariant
            0 <= i <= n,
            n == tweets@.len(),
            forall|j: int|
                0 <= j < tweets@.len() ==> retweet_resolvable(#[trigger] tweets@[j], *includes),
            ids@.map_values(|s: String| s@) + spec_augment_ids(tweets@.skip(i as int), *includes)
                == spec_augment_ids(tweets@, *includes),
        decreases n - i,
    {
        proof {
            assert(tweets@.skip(i as int)[0] == tweets@[i as int]);
            assert(tweets@.skip(i as int).drop_first() =~= tweets@.skip(i + 1));
        }
        if let Some(id) = needs_augment(&tweets[i], includes) {
            let ghost old_ids = ids@;
            ids.push(id);
            proof {
                assert(ids@.map_values(|s: String| s@) =~= old_ids.map_values(|s: String| s@)
                    + seq![ids@.last()@]);
            }
        }
        i = i + 1;
    }
    proof {
        assert(spec_augment_ids(tweets@.skip(n as int), *includes) =~= Seq::<Seq<char>>::empty());
        assert(ids@.map_values(|s: String| s@) =~= ids@.map_values(|s: String| s@) + Seq::<
            Seq<char>,
        >::empty());
    }
    ids
}

/// A tweet found in a list is still found, unchanged, after entries are
/// appended to it.
pub proof fn lemma_find_tweet_append(ts: Seq<Tweet>, extra: Seq<Tweet>, id: Seq<char>)
    requires
        spec_find_tweet(ts, id) is Some,
    ensures
        spec_find_tweet(ts + extra, id) == spec_find_tweet(ts, id),
    decreases ts.len(),
{
    assert(ts.len() > 0);
    assert((ts + extra)[0] == ts[0]);
    if ts[0].id@ == id {
    } else {
        assert((ts + extra).drop_first() =~= ts.drop_first() + extra);
        lemma_find_tweet_append(ts.drop_first(), extra, id);
    }
}

/// A media object found in a list is still found, unchanged, after entries
/// are appended to it.
pub proof fn lemma_find_media_append(ms: Seq<Media>, extra: Seq<Media>, key: Seq<char>)
    requires
        spec_find_media(ms, key) is Some,
    ensures
        spec_find_media(ms + extra, key) == spec_find_media(ms, key),
    decreases ms.len(),
{
    assert(ms.len() > 0);
    assert((ms + extra)[0] == ms[0]);
    if ms[0].media_key@ == key {
    } else {
        assert((ms + extra).drop_first() =~= ms.drop_first() + extra);
        lemma_find_media_append(ms.drop_first(), extra, key);
    }
}

/// When no tweet of the batch needs augmenting, the collected ID list is
/// empty.
proof fn lemma_augment_ids_all_none(tweets: Seq<Tweet>, includes: ResponseIncludes)
    requires
        forall|i: int|
            0 <= i < tweets.len() ==> spec_needs_augment(#[trigger] tweets[i], includes) is None,
    ensures
        spec_augment_ids(tweets, includes) == Seq::<Seq<char>>::empty(),
    decreases tweets.len(),
{
    if tweets.len() > 0 {
        assert(forall|i: int|
            0 <= i < tweets.drop_first().len() ==> tweets.drop_first()[i] == tweets[i + 1]);
        lemma_augment_ids_all_none(tweets.drop_first(), includes);
    }
}

/// Augment idempotence: after one augmentation pass has folded in includes
/// that supply every media object it found missing, a second pass over the
/// same batch asks for no IDs at all.
///
/// `aug` is the includes after the pass: the starting `includes` with the
/// retrieved `extra` appended (exactly what `ResponseIncludes::augment`
/// ensures). The hypothesis that the retrieved includes really contain the
/// missing media is the part only the provider can guarantee.
pub proof fn lemma_augment_idempotent(
    tweets: Seq<Tweet>,
    includes: ResponseIncludes,
    extra: ResponseIncludes,
    aug: ResponseIncludes,
)
    requires
        aug.tweets@ == includes.tweets@ + extra.tweets@,
        aug.users@ == includes.users@ + extra.users@,
        aug.media@ == includes.media@ + extra.media@,
        forall|i: int|
            0 <= i < tweets.len() ==> retweet_resolvable(#[trigger] tweets[i], includes),
        forall|i: int|
            0 <= i < tweets.len() ==> (spec_needs_augment(#[trigger] tweets[i], includes) is Some
                ==> spec_media_complete(spec_real_tweet(tweets[i], includes), aug)),
    ensures
        spec_augment_ids(tweets, aug) == Seq::<Seq<char>>::empty(),
{
    assert forall|i: int| 0 <= i < tweets.len() implies spec_needs_augment(
        #[trigger] tweets[i],
        aug,
    ) is None by {
        let t = tweets[i];
        match t.spec_retweet_source() {
            Some(rt_id) => {
                lemma_find_tweet_append(includes.tweets@, extra.tweets@, rt_id);
                assert(spec_real_tweet(t, aug) == spec_real_tweet(t, includes));
            },
            None => {},
        }
        let subject = spec_real_tweet(t, includes);
        if spec_needs_augment(t, includes) is None {
            // Already complete: every key found before is still found after
            // the append.
            assert forall|k: int| 0 <= k < subject.attachments.media_keys@.len() implies
                aug.spec_get_media(#[trigger] subject.attachments.media_keys@[k]@) is Some by {
                lemma_find_media_append(
                    includes.media@,
                    extra.media@,
                    subject.attachments.media_keys@[k]@,
                );
            }
        }
    }
    lemma_augment_ids_all_none(tweets, aug);
}

} // verus!
