//! Routing dispatcher support: the normalized payload handed to the
//! user-supplied routing script, the on-disk routing-decision record whose
//! presence makes a tweet idempotent, and the plan the stream loop follows
//! once the script has answered.
//!
//! The script itself runs in an embedded sandbox outside the library; this
//! module builds everything that goes in and interprets what comes out.

use vstd::prelude::*;

use crate::augment::{retweet_resolvable, spec_real_tweet};
use crate::cache::CacheItem;
use crate::model::{MatchingRule, Media, ResponseIncludes, ResponseItem, StreamMeta, Tweet, User};

verus! {

/// The media objects of the given keys that resolve in the includes, in key
/// order; unresolved keys are skipped.
pub open spec fn spec_resolved_media(keys: Seq<String>, includes: ResponseIncludes) -> Seq<Media>
    decreases keys.len(),
{
    if keys.len() == 0 {
        Seq::empty()
    } else {
        match includes.spec_get_media(keys[0]@) {
            Some(m) => seq![m] + spec_resolved_media(keys.drop_first(), includes),
            None => spec_resolved_media(keys.drop_first(), includes),
        }
    }
}

/// The tags of the matched stream rules, in rule order.
pub open spec fn spec_rule_tags(rules: Seq<MatchingRule>) -> Seq<Seq<char>> {
    rules.map_values(|r: MatchingRule| r.tag@)
}

/// Collects the media objects of the given keys that resolve in the
/// includes.
pub fn resolved_media<'a>(keys: &Vec<String>, includes: &'a ResponseIncludes) -> (r: Vec<
    &'a Media,
>)
    ensures
        r@.map_values(|m: &Media| *m) == spec_resolved_media(keys@, *includes),
{
    let n = keys.len();
    let mut out: Vec<&'a Media> = Vec::new();
    let mut i: usize = 0;
    proof {
        assert(keys@.skip(0) =~= keys@);
        assert(out@.map_values(|m: &Media| *m) =~= Seq::<Media>::empty());
    }
    while i < n
        invariant
            0 <= i <= n,
            n == keys@.len(),
            out@.map_values(|m: &Media| *m) + spec_resolved_media(keys@.skip(i as int), *includes)
                == spec_resolved_media(keys@, *includes),
        decreases n - i,
    {
        proof {
            assert(keys@.skip(i as int)[0] == keys@[i as int]);
            assert(keys@.skip(i as int).drop_first() =~= keys@.skip(i + 1));
        }
        match includes.get_media(keys[i].as_str()) {
            Some(m) => {
                let ghost prev = out@;
                out.push(m);
                proof {
                    assert(out@.map_values(|md: &Media| *md) =~= prev.map_values(
                        |md: &Media| *md,
                    ) + seq![*m]);
                }
            },
            None => {},
        }
        i = i + 1;
    }
    proof {
        assert(spec_resolved_media(keys@.skip(n as int), *includes) =~= Seq::<Media>::empty());
        assert(out@.map_values(|m: &Media| *m) =~= out@.map_values(|m: &Media| *m) + Seq::<
            Media,
        >::empty());
    }
    out
}

/// Collects the tags of the matched stream rules.
pub fn rule_tags(rules: &Vec<MatchingRule>) -> (r: Vec<String>)
    ensures
        r@.map_values(|s: String| s@) == spec_rule_tags(rules@),
{
    let n = rules.len();
    let mut out: Vec<String> = Vec::new();
    let mut i: usize = 0;
    while i < n
        invariant
            0 <= i <= n,
            n == rules@.len(),
            out@.len() == i,
            forall|j: int| 0 <= j < i ==> out@[j]@ == rules@[j].tag@,
        decreases n - i,
    {
        out.push(rules[i].tag.clone());
        i = i + 1;
    }
    proof {
        assert(out@.map_values(|s: String| s@) =~= spec_rule_tags(rules@));
    }
    out
}

/// The normalized payload handed to the routing script for one streamed
/// tweet: the real tweet (retweet source if the delivery is a retweet), its
/// author, the retweet wrapper and wrapper author when present, the
/// resolved media, the composite score in milli-units, the matched rule
/// tags, and whether the tweet was already cached.
#[derive(Debug)]
pub struct RoutePayload<'a> {
    pub tweet: &'a Tweet,
    pub author: &'a User,
    pub original_tweet: Option<&'a Tweet>,
    pub original_author: Option<&'a User>,
    pub media: Vec<&'a Media>,
    pub score_milli: i64,
    pub tags: Vec<String>,
    pub cached: bool,
}

/// A streamed bundle can be routed: the retweet source (when there is one)
/// and the authors of both the delivered tweet and the real tweet resolve
/// in the includes.
pub open spec fn routable(res: ResponseItem<Tweet, StreamMeta>) -> bool {
    &&& retweet_resolvable(res.data, res.includes)
    &&& (res.data.spec_retweet_source() is Some ==> {
        &&& res.data.author_id is Some
        &&& res.includes.spec_get_user(res.data.author_id.unwrap()@) is Some
    })
    &&& spec_real_tweet(res.data, res.includes).author_id is Some
    &&& res.includes.spec_get_user(
        spec_real_tweet(res.data, res.includes).author_id.unwrap()@,
    ) is Some
}

/// Builds the normalized payload for one streamed tweet. The score is
/// computed outside (floating point) and handed in; `cached` is the cache's
/// answer for the real tweet's ID.
pub fn build_route_payload<'a>(
    res: &'a ResponseItem<Tweet, StreamMeta>,
    score_milli: i64,
    cached: bool,
) -> (r: RoutePayload<'a>)
    requires
        routable(*res),
    ensures
        *r.tweet == spec_real_tweet(res.data, res.includes),
        *r.author == res.includes.spec_get_user(r.tweet.author_id.unwrap()@).unwrap(),
        res.data.spec_retweet_source() is Some ==> {
            &&& (r.original_tweet matches Some(t) && *t == res.data)
            &&& (r.original_author matches Some(u) && *u == res.includes.spec_get_user(
                res.data.author_id.unwrap()@,
            ).unwrap())
        },
        res.data.spec_retweet_source() is None ==> r.original_tweet is None
            && r.original_author is None,
        r.media@.map_values(|m: &Media| *m) == spec_resolved_media(
            r.tweet.attachments.media_keys@,
            res.includes,
        ),
        r.tags@.map_values(|s: String| s@) == spec_rule_tags(res.meta.matching_rules@),
        r.score_milli == score_milli,
        r.cached == cached,
{
    let (subject, original): (&'a Tweet, Option<(&'a Tweet, &'a User)>) = match res
        .data
        .get_retweet_source() {
        Some(rt_id) => {
            let source = res.includes.get_tweet(rt_id).unwrap();
            let wrapper_author_id = res.data.author_id().unwrap();
            let wrapper_author = res.includes.get_user(wrapper_author_id).unwrap();
            (source, Some((&res.data, wrapper_author)))
        },
        None => (&res.data, None),
    };
    let author_id = subject.author_id().unwrap();
    let author = res.includes.get_user(author_id).unwrap();
    let media = resolved_media(&subject.attachments.media_keys, &res.includes);
    let tags = rule_tags(&res.meta.matching_rules);
    let (original_tweet, original_author): (Option<&'a Tweet>, Option<&'a User>) = match original {
        Some((t, u)) => (Some(t), Some(u)),
        None => (None, None),
    };
    RoutePayload {
        tweet: subject,
        author,
        original_tweet,
        original_author,
        media,
        score_milli,
        tags,
        cached,
    }
}

/// The routing decision persisted for an emitted tweet; its presence on
/// disk marks the tweet as already emitted.
#[derive(Debug, Clone)]
pub struct CacheData {
    pub tweet_id: String,
    pub author_id: String,
    pub target_tweet_id: Option<String>,
    pub target_author_id: Option<String>,
    pub media_keys: Vec<String>,
    pub score_milli: i64,
    pub tags: Vec<String>,
}

impl CacheItem for CacheData {
    fn key(&self) -> &str {
        self.tweet_id.as_str()
    }
}

impl CacheData {
    /// The record to persist for a routed payload: keyed by the delivered
    /// tweet (the retweet wrapper when there is one), naming the real tweet
    /// as target when they differ.
    pub fn from_payload(payload: &RoutePayload<'_>) -> (r: CacheData)
        ensures
            payload.original_tweet matches Some(t) ==> r.tweet_id@ == t.id@,
            payload.original_tweet is None ==> r.tweet_id@ == payload.tweet.id@,
            payload.original_author matches Some(u) ==> r.author_id@ == u.id@,
            payload.original_author is None ==> r.author_id@ == payload.author.id@,
            payload.original_tweet is Some ==> (r.target_tweet_id matches Some(t) && t@
                == payload.tweet.id@),
            payload.original_tweet is None ==> r.target_tweet_id is None,
            payload.original_author is Some ==> (r.target_author_id matches Some(u) && u@
                == payload.author.id@),
            payload.original_author is None ==> r.target_author_id is None,
            r.media_keys@.map_values(|s: String| s@) == payload.media@.map_values(
                |m: &Media| m.media_key@,
            ),
            r.score_milli == payload.score_milli,
            r.tags@.map_values(|s: String| s@) == payload.tags@.map_values(|s: String| s@),
    {
        let tweet_id = match payload.original_tweet {
            Some(t) => t.id.clone(),
            None => payload.tweet.id.clone(),
        };
        let author_id = match payload.original_author {
            Some(u) => u.id.clone(),
            None => payload.author.id.clone(),
        };
        let target_tweet_id = match payload.original_tweet {
            Some(_) => Some(payload.tweet.id.clone()),
            None => None,
        };
        let target_author_id = match payload.original_author {
            Some(_) => Some(payload.author.id.clone()),
            None => None,
        };
        let n = payload.media.len();
        let mut media_keys: Vec<String> = Vec::new();
        let mut i: usize = 0;
        while i < n
            invariant
                0 <= i <= n,
                n == payload.media@.len(),
                media_keys@.len() == i,
                forall|j: int| 0 <= j < i ==> media_keys@[j]@ == payload.media@[j].media_key@,
            decreases n - i,
        {
            media_keys.push(payload.media[i].media_key.clone());
            i = i + 1;
        }
        let m = payload.tags.len();
        let mut tags: Vec<String> = Vec::new();
        let mut k: usize = 0;
        while k < m
            invariant
                0 <= k <= m,
                m == payload.tags@.len(),
                tags@.len() == k,
                forall|j: int| 0 <= j < k ==> tags@[j]@ == payload.tags@[j]@,
            decreases m - k,
        {
            tags.push(payload.tags[k].clone());
            k = k + 1;
        }
        proof {
            assert(media_keys@.map_values(|s: String| s@) =~= payload.media@.map_values(
                |md: &Media| md.media_key@,
            ));
            assert(tags@.map_values(|s: String| s@) =~= payload.tags@.map_values(|s: String| s@));
        }
        CacheData {
            tweet_id,
            author_id,
            target_tweet_id,
            target_author_id,
            media_keys,
            score_milli: payload.score_milli,
            tags,
        }
    }
}

/// One delivery the routing script asked for; the script's payload itself
/// is opaque JSON and stays with the caller.
#[derive(Debug, Clone)]
pub struct RouteTarget {
    pub url: String,
}

/// What the stream loop does with a routed tweet: deliver when the script
/// returned at least one route, and persist the decision record only for a
/// delivered tweet that was not already cached.
#[derive(Debug, Copy, Clone, Eq, PartialEq, Structural)]
pub struct StreamPlan {
    pub deliver: bool,
    pub store: bool,
}

/// Decides what the stream loop does once the routing script has answered.
pub fn stream_plan(route_count: usize, cached: bool) -> (r: StreamPlan)
    ensures
        r.deliver == (route_count > 0),
        r.store == (route_count > 0 && !cached),
{
    StreamPlan { deliver: route_count > 0, store: route_count > 0 && !cached }
}

} // verus!
