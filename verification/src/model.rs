//! Immutable value types for tweets, users, media and response bundles,
//! with includes-lookup and augment (merge) operations.
//!
//! Timestamps are UTC epoch milliseconds; URLs are plain strings. Wire
//! parsing (JSON) happens outside the library and hands these values in.

use vstd::prelude::*;

use crate::text::{
    before_query, spec_after_last_slash, spec_before_query, spec_strip_normal, spec_unescape,
    str_eq, strip_normal, unescape, after_last_slash, lemma_after_last_slash_bounds,
};
use vstd::string::StrSliceExecFns;

verus! {

/// The character view of an optional string.
pub open spec fn opt_string_view(o: Option<String>) -> Option<Seq<char>> {
    match o {
        Some(s) => Some(s@),
        None => None,
    }
}

/// A profile image URL at original size: the `_normal` size marker is
/// stripped from the file name (the part after the last `/`).
pub open spec fn spec_profile_image_orig(u: Seq<char>) -> Seq<char> {
    u.take(spec_after_last_slash(u)) + spec_strip_normal(u.skip(spec_after_last_slash(u)))
}

/// A media URL with any size query replaced by `name=orig`, falling back to
/// the preview image URL unchanged.
pub open spec fn spec_media_url_orig(m: Media) -> Option<Seq<char>> {
    match m.url {
        Some(u) => Some(spec_before_query(u@) + "?name=orig"@),
        None => opt_string_view(m.preview_image_url),
    }
}

/// Public engagement counters of a tweet.
#[derive(Debug, Clone, Copy, PartialEq, Eq, Structural)]
pub struct TweetPublicMetrics {
    pub reply_count: u64,
    pub retweet_count: u64,
    pub quote_count: u64,
    pub like_count: u64,
}

/// Public audience counters of a user.
#[derive(Debug, Clone, Copy, PartialEq, Eq, Structural)]
pub struct UserPublicMetrics {
    pub followers_count: u64,
    pub following_count: u64,
    pub tweet_count: u64,
    pub listed_count: u64,
}

/// How one tweet references another.
#[derive(Debug, Copy, Clone, Eq, PartialEq, Structural)]
pub enum TweetReferenceType {
    Retweeted,
    Quoted,
    RepliedTo,
}

/// A reference from one tweet to another, by ID.
#[derive(Debug, Clone)]
pub struct ReferencedTweet {
    pub ty: TweetReferenceType,
    pub id: String,
}

impl ReferencedTweet {
    pub fn ref_type(&self) -> (r: TweetReferenceType)
        ensures
            r == self.ty,
    {
        self.ty
    }

    pub fn id(&self) -> (r: &str)
        ensures
            r@ == self.id@,
    {
        self.id.as_str()
    }
}

/// A hashtag entity, with its character span in the tweet text.
#[derive(Debug, Clone)]
pub struct Hashtag {
    pub start: usize,
    pub end: usize,
    pub tag: String,
}

/// A URL entity, with its character span in the tweet text.
#[derive(Debug, Clone)]
pub struct UrlEntity {
    pub start: usize,
    pub end: usize,
    pub url: String,
    pub display_url: String,
    pub expanded_url: String,
}

/// Entities extracted from a tweet's text.
#[derive(Debug, Clone)]
pub struct Entities {
    pub hashtags: Vec<Hashtag>,
    pub urls: Vec<UrlEntity>,
}

impl Default for Entities {
    fn default() -> (r: Self)
        ensures
            r.hashtags@.len() == 0,
            r.urls@.len() == 0,
    {
        Entities { hashtags: Vec::new(), urls: Vec::new() }
    }
}

/// Media keys attached to a tweet.
#[derive(Debug, Clone)]
pub struct Attachments {
    pub media_keys: Vec<String>,
}

impl Default for Attachments {
    fn default() -> (r: Self)
        ensures
            r.media_keys@.len() == 0,
    {
        Attachments { media_keys: Vec::new() }
    }
}

/// A tweet. The ID is lexicographically orderable and increases with
/// creation time; cursors rely on that order.
#[derive(Debug, Clone)]
pub struct Tweet {
    pub id: String,
    pub text: String,
    /// Creation time, UTC epoch milliseconds.
    pub created_at: Option<i64>,
    pub author_id: Option<String>,
    pub entities: Entities,
    pub attachments: Attachments,
    pub public_metrics: Option<TweetPublicMetrics>,
    pub possibly_sensitive: Option<bool>,
    pub referenced_tweets: Vec<ReferencedTweet>,
}

/// The ID of the first `Retweeted` reference of the list, if any.
pub open spec fn spec_find_retweet(refs: Seq<ReferencedTweet>) -> Option<Seq<char>>
    decreases refs.len(),
{
    if refs.len() == 0 {
        None
    } else if refs[0].ty is Retweeted {
        Some(refs[0].id@)
    } else {
        spec_find_retweet(refs.drop_first())
    }
}

impl Tweet {
    /// The retweet source of this tweet, if it is a retweet.
    pub open spec fn spec_retweet_source(self) -> Option<Seq<char>> {
        spec_find_retweet(self.referenced_tweets@)
    }

    pub fn id(&self) -> (r: &str)
        ensures
            r@ == self.id@,
    {
        self.id.as_str()
    }

    pub fn raw_text(&self) -> (r: &str)
        ensures
            r@ == self.text@,
    {
        self.text.as_str()
    }

    /// The tweet text with the provider's HTML escaping undone.
    pub fn unescaped_text(&self) -> (r: String)
        ensures
            r@ == spec_unescape(self.text@),
    {
        unescape(self.text.as_str())
    }

    pub fn created_at(&self) -> (r: Option<i64>)
        ensures
            r == self.created_at,
    {
        self.created_at
    }

    pub fn author_id(&self) -> (r: Option<&str>)
        ensures
            r is Some <==> self.author_id is Some,
            r matches Some(s) ==> self.author_id matches Some(t) && s@ == t@,
    {
        match &self.author_id {
            Some(s) => Some(s.as_str()),
            None => None,
        }
    }

    pub fn entities(&self) -> (r: &Entities)
        ensures
            r == &self.entities,
    {
        &self.entities
    }

    pub fn media_keys(&self) -> (r: &[String])
        ensures
            r@ == self.attachments.media_keys@,
    {
        self.attachments.media_keys.as_slice()
    }

    pub fn metrics(&self) -> (r: Option<&TweetPublicMetrics>)
        ensures
            r is Some <==> self.public_metrics is Some,
            r matches Some(m) ==> self.public_metrics matches Some(n) && *m == n,
    {
        match &self.public_metrics {
            Some(m) => Some(m),
            None => None,
        }
    }

    pub fn possibly_sensitive(&self) -> (r: bool)
        ensures
            r == (self.possibly_sensitive matches Some(true)),
    {
        match self.possibly_sensitive {
            Some(b) => b,
            None => false,
        }
    }

    pub fn referenced_tweets(&self) -> (r: &[ReferencedTweet])
        ensures
            r@ == self.referenced_tweets@,
    {
        self.referenced_tweets.as_slice()
    }

    /// The ID of the tweet this one retweets, if any.
    pub fn get_retweet_source(&self) -> (r: Option<&str>)
        ensures
            r is Some <==> self.spec_retweet_source() is Some,
            r matches Some(s) ==> self.spec_retweet_source() == Some(s@),
    {
        let n = self.referenced_tweets.len();
        let mut i: usize = 0;
        proof {
            assert(self.referenced_tweets@.skip(0) =~= self.referenced_tweets@);
        }
        while i < n
            invariant
                0 <= i <= n,
                n == self.referenced_tweets@.len(),
                spec_find_retweet(self.referenced_tweets@) == spec_find_retweet(
                    self.referenced_tweets@.skip(i as int),
                ),
            decreases n - i,
        {
            if matches!(self.referenced_tweets[i].ty, TweetReferenceType::Retweeted) {
                return Some(self.referenced_tweets[i].id.as_str());
            }
            proof {
                assert(self.referenced_tweets@.skip(i as int).drop_first()
                    =~= self.referenced_tweets@.skip(i + 1));
            }
            i = i + 1;
        }
        None
    }
}

/// A user profile.
#[derive(Debug, Clone)]
pub struct User {
    pub id: String,
    pub name: String,
    pub username: String,
    pub profile_image_url: Option<String>,
    pub public_metrics: Option<UserPublicMetrics>,
}

impl User {
    pub fn id(&self) -> (r: &str)
        ensures
            r@ == self.id@,
    {
        self.id.as_str()
    }

    pub fn name(&self) -> (r: &str)
        ensures
            r@ == self.name@,
    {
        self.name.as_str()
    }

    pub fn username(&self) -> (r: &str)
        ensures
            r@ == self.username@,
    {
        self.username.as_str()
    }

    pub fn profile_image_url(&self) -> (r: Option<&str>)
        ensures
            r is Some <==> self.profile_image_url is Some,
            r matches Some(s) ==> self.profile_image_url matches Some(t) && s@ == t@,
    {
        match &self.profile_image_url {
            Some(s) => Some(s.as_str()),
            None => None,
        }
    }

    pub fn metrics(&self) -> (r: Option<&UserPublicMetrics>)
        ensures
            r is Some <==> self.public_metrics is Some,
            r matches Some(m) ==> self.public_metrics matches Some(n) && *m == n,
    {
        match &self.public_metrics {
            Some(m) => Some(m),
            None => None,
        }
    }

    /// The profile image URL at original size: the `_normal` size marker is
    /// stripped from the file name (the part after the last `/`).
    pub fn profile_image_url_orig(&self) -> (r: Option<String>)
        ensures
            r is Some <==> self.profile_image_url is Some,
            r matches Some(s) ==> (self.profile_image_url matches Some(u) && s@
                == spec_profile_image_orig(u@)),
    {
        let u = match &self.profile_image_url {
            Some(u) => u,
            None => {
                return None;
            },
        };
        let len = u.as_str().unicode_len();
        let cut = after_last_slash(u.as_str());
        proof {
            lemma_after_last_slash_bounds(u@);
        }
        let mut s = String::new();
        s.append(u.as_str().substring_char(0, cut));
        s.append(strip_normal(u.as_str().substring_char(cut, len)).as_str());
        proof {
            assert(u@.subrange(0, spec_after_last_slash(u@)) =~= u@.take(spec_after_last_slash(u@)));
            assert(u@.subrange(spec_after_last_slash(u@), u@.len() as int) =~= u@.skip(
                spec_after_last_slash(u@)));
            assert(s@ =~= u@.take(spec_after_last_slash(u@)) + spec_strip_normal(u@.skip(
                spec_after_last_slash(u@))));
        }
        Some(s)
    }
}

/// Kind of an attached media object.
#[derive(Debug, Copy, Clone, Eq, PartialEq, Structural)]
pub enum MediaType {
    Photo,
    Video,
    AnimatedGif,
}

/// An attached media object, keyed by its media key.
#[derive(Debug, Clone)]
pub struct Media {
    pub media_key: String,
    pub width: u64,
    pub height: u64,
    pub ty: MediaType,
    pub url: Option<String>,
    pub preview_image_url: Option<String>,
}

impl Media {
    pub fn key(&self) -> (r: &str)
        ensures
            r@ == self.media_key@,
    {
        self.media_key.as_str()
    }

    pub fn width(&self) -> (r: u64)
        ensures
            r == self.width,
    {
        self.width
    }

    pub fn height(&self) -> (r: u64)
        ensures
            r == self.height,
    {
        self.height
    }

    pub fn media_type(&self) -> (r: MediaType)
        ensures
            r == self.ty,
    {
        self.ty
    }

    /// The canonical URL with any size query replaced by `name=orig`,
    /// falling back to the preview image URL unchanged.
    pub fn url_orig(&self) -> (r: Option<String>)
        ensures
            opt_string_view(r) == spec_media_url_orig(*self),
    {
        match &self.url {
            Some(u) => {
                let mut s = before_query(u.as_str());
                s.append("?name=orig");
                Some(s)
            },
            None => match &self.preview_image_url {
                Some(p) => Some(p.clone()),
                None => None,
            },
        }
    }

    /// The canonical URL, falling back to the preview image.
    pub fn url(&self) -> (r: Option<&str>)
        ensures
            self.url matches Some(u) ==> (r matches Some(s) && s@ == u@),
            self.url is None ==> (self.preview_image_url matches Some(u) ==> (r matches Some(s)
                && s@ == u@)),
            (self.url is None && self.preview_image_url is None) ==> r is None,
    {
        match &self.url {
            Some(u) => Some(u.as_str()),
            None => match &self.preview_image_url {
                Some(u) => Some(u.as_str()),
                None => None,
            },
        }
    }
}

/// First tweet of the list with the given ID.
pub open spec fn spec_find_tweet(ts: Seq<Tweet>, id: Seq<char>) -> Option<Tweet>
    decreases ts.len(),
{
    if ts.len() == 0 {
        None
    } else if ts[0].id@ == id {
        Some(ts[0])
    } else {
        spec_find_tweet(ts.drop_first(), id)
    }
}

/// First user of the list with the given ID.
pub open spec fn spec_find_user(us: Seq<User>, id: Seq<char>) -> Option<User>
    decreases us.len(),
{
    if us.len() == 0 {
        None
    } else if us[0].id@ == id {
        Some(us[0])
    } else {
        spec_find_user(us.drop_first(), id)
    }
}

/// First media object of the list with the given key.
pub open spec fn spec_find_media(ms: Seq<Media>, key: Seq<char>) -> Option<Media>
    decreases ms.len(),
{
    if ms.len() == 0 {
        None
    } else if ms[0].media_key@ == key {
        Some(ms[0])
    } else {
        spec_find_media(ms.drop_first(), key)
    }
}

/// The includes of a response bundle: referenced tweets, users and media,
/// each looked up by ID and unioned append-only by `augment`.
#[derive(Debug, Clone)]
pub struct ResponseIncludes {
    pub tweets: Vec<Tweet>,
    pub users: Vec<User>,
    pub media: Vec<Media>,
}

impl Default for ResponseIncludes {
    fn default() -> (r: Self)
        ensures
            r.tweets@.len() == 0,
            r.users@.len() == 0,
            r.media@.len() == 0,
    {
        ResponseIncludes { tweets: Vec::new(), users: Vec::new(), media: Vec::new() }
    }
}

impl ResponseIncludes {
    pub open spec fn spec_get_tweet(self, id: Seq<char>) -> Option<Tweet> {
        spec_find_tweet(self.tweets@, id)
    }

    pub open spec fn spec_get_user(self, id: Seq<char>) -> Option<User> {
        spec_find_user(self.users@, id)
    }

    pub open spec fn spec_get_media(self, key: Seq<char>) -> Option<Media> {
        spec_find_media(self.media@, key)
    }

    pub fn get_tweet(&self, id: &str) -> (r: Option<&Tweet>)
        ensures
            r matches Some(t) ==> self.spec_get_tweet(id@) == Some(*t),
            r is None ==> self.spec_get_tweet(id@) is None,
    {
        let n = self.tweets.len();
        let mut i: usize = 0;
        proof {
            assert(self.tweets@.skip(0) =~= self.tweets@);
        }
        while i < n
            invariant
                0 <= i <= n,
                n == self.tweets@.len(),
                spec_find_tweet(self.tweets@, id@) == spec_find_tweet(
                    self.tweets@.skip(i as int),
                    id@,
                ),
            decreases n - i,
        {
            if str_eq(self.tweets[i].id.as_str(), id) {
                return Some(&self.tweets[i]);
            }
            proof {
                assert(self.tweets@.skip(i as int).drop_first() =~= self.tweets@.skip(i + 1));
            }
            i = i + 1;
        }
        None
    }

    pub fn get_user(&self, id: &str) -> (r: Option<&User>)
        ensures
            r matches Some(u) ==> self.spec_get_user(id@) == Some(*u),
            r is None ==> self.spec_get_user(id@) is None,
    {
        let n = self.users.len();
        let mut i: usize = 0;
        proof {
            assert(self.users@.skip(0) =~= self.users@);
        }
        while i < n
            invariant
                0 <= i <= n,
                n == self.users@.len(),
                spec_find_user(self.users@, id@) == spec_find_user(self.users@.skip(i as int), id@),
            decreases n - i,
        {
            if str_eq(self.users[i].id.as_str(), id) {
                return Some(&self.users[i]);
            }
            proof {
                assert(self.users@.skip(i as int).drop_first() =~= self.users@.skip(i + 1));
            }
            i = i + 1;
        }
        None
    }

    pub fn get_media(&self, key: &str) -> (r: Option<&Media>)
        ensures
            r matches Some(m) ==> self.spec_get_media(key@) == Some(*m),
            r is None ==> self.spec_get_media(key@) is None,
    {
        let n = self.media.len();
        let mut i: usize = 0;
        proof {
            assert(self.media@.skip(0) =~= self.media@);
        }
        while i < n
            invariant
                0 <= i <= n,
                n == self.media@.len(),
                spec_find_media(self.media@, key@) == spec_find_media(
                    self.media@.skip(i as int),
                    key@,
                ),
            decreases n - i,
        {
            if str_eq(self.media[i].media_key.as_str(), key) {
                return Some(&self.media[i]);
            }
            proof {
                assert(self.media@.skip(i as int).drop_first() =~= self.media@.skip(i + 1));
            }
            i = i + 1;
        }
        None
    }

    /// Appends the other bundle's includes to this one. Append-only:
    /// existing entries keep their positions, so earlier lookups stay valid.
    pub fn augment(&mut self, other: ResponseIncludes)
        ensures
            final(self).tweets@ == old(self).tweets@ + other.tweets@,
            final(self).users@ == old(self).users@ + other.users@,
            final(self).media@ == old(self).media@ + other.media@,
    {
        let ResponseIncludes { mut tweets, mut users, mut media } = other;
        self.tweets.append(&mut tweets);
        self.users.append(&mut users);
        self.media.append(&mut media);
    }

    /// Moves the other bundle's includes into this one, leaving it empty.
    pub fn take_augment(&mut self, other: &mut ResponseIncludes)
        ensures
            final(self).tweets@ == old(self).tweets@ + old(other).tweets@,
            final(self).users@ == old(self).users@ + old(other).users@,
            final(self).media@ == old(self).media@ + old(other).media@,
            final(other).tweets@.len() == 0,
            final(other).users@.len() == 0,
            final(other).media@.len() == 0,
    {
        self.tweets.append(&mut other.tweets);
        self.users.append(&mut other.users);
        self.media.append(&mut other.media);
    }
}

/// A response bundle: payload data, includes, and endpoint-specific
/// metadata.
#[derive(Debug, Clone)]
pub struct ResponseItem<Data, Meta> {
    pub data: Data,
    pub includes: ResponseIncludes,
    pub meta: Meta,
}

impl<Data, Meta> ResponseItem<Data, Meta> {
    pub fn get_media(&self, media_key: &str) -> (r: Option<&Media>)
        ensures
            r matches Some(m) ==> self.includes.spec_get_media(media_key@) == Some(*m),
            r is None ==> self.includes.spec_get_media(media_key@) is None,
    {
        self.includes.get_media(media_key)
    }

    pub fn get_tweet(&self, id: &str) -> (r: Option<&Tweet>)
        ensures
            r matches Some(t) ==> self.includes.spec_get_tweet(id@) == Some(*t),
            r is None ==> self.includes.spec_get_tweet(id@) is None,
    {
        self.includes.get_tweet(id)
    }

    pub fn get_user(&self, id: &str) -> (r: Option<&User>)
        ensures
            r matches Some(u) ==> self.includes.spec_get_user(id@) == Some(*u),
            r is None ==> self.includes.spec_get_user(id@) is None,
    {
        self.includes.get_user(id)
    }

    /// Moves the other bundle's includes into this one.
    pub fn take_augment<OtherData, OtherMeta>(&mut self, other: &mut ResponseItem<OtherData, OtherMeta>)
        ensures
            final(self).includes.tweets@ == old(self).includes.tweets@
                + old(other).includes.tweets@,
            final(self).includes.users@ == old(self).includes.users@ + old(other).includes.users@,
            final(self).includes.media@ == old(self).includes.media@ + old(other).includes.media@,
            final(self).data == old(self).data,
            final(self).meta == old(self).meta,
            final(other).includes.tweets@.len() == 0,
            final(other).includes.users@.len() == 0,
            final(other).includes.media@.len() == 0,
            final(other).data == old(other).data,
            final(other).meta == old(other).meta,
    {
        self.includes.take_augment(&mut other.includes);
    }

    /// Splits the metadata off the bundle.
    pub fn take_meta(self) -> (r: (ResponseItem<Data, Option<()>>, Meta))
        ensures
            r.0.data == self.data,
            r.0.includes == self.includes,
            r.0.meta is None,
            r.1 == self.meta,
    {
        let ResponseItem { data, includes, meta } = self;
        (ResponseItem { data, includes, meta: None }, meta)
    }
}

/// Stream metadata: the filter rules the tweet matched.
#[derive(Debug, Clone)]
pub struct StreamMeta {
    pub matching_rules: Vec<MatchingRule>,
}

impl StreamMeta {
    pub fn matching_rules(&self) -> (r: &[MatchingRule])
        ensures
            r@ == self.matching_rules@,
    {
        self.matching_rules.as_slice()
    }
}

/// One matched filter rule.
#[derive(Debug, Clone)]
pub struct MatchingRule {
    pub id: String,
    pub tag: String,
}

impl MatchingRule {
    pub fn id(&self) -> (r: &str)
        ensures
            r@ == self.id@,
    {
        self.id.as_str()
    }

    pub fn tag(&self) -> (r: &str)
        ensures
            r@ == self.tag@,
    {
        self.tag.as_str()
    }
}

/// Paging metadata of a list or timeline response.
#[derive(Debug, Clone)]
pub struct ListMetaInner {
    pub result_count: i32,
    pub previous_token: Option<String>,
    pub next_token: Option<String>,
}

/// Paging metadata envelope of a list or timeline response.
#[derive(Debug, Clone)]
pub struct ListMeta {
    pub meta: ListMetaInner,
}

impl ListMeta {
    pub fn result_count(&self) -> (r: i32)
        ensures
            r == self.meta.result_count,
    {
        self.meta.result_count
    }

    pub fn previous_token(&self) -> (r: Option<&str>)
        ensures
            r is Some <==> self.meta.previous_token is Some,
            r matches Some(s) ==> self.meta.previous_token matches Some(t) && s@ == t@,
    {
        match &self.meta.previous_token {
            Some(s) => Some(s.as_str()),
            None => None,
        }
    }

    pub fn next_token(&self) -> (r: Option<&str>)
        ensures
            r is Some <==> self.meta.next_token is Some,
            r matches Some(s) ==> self.meta.next_token matches Some(t) && s@ == t@,
    {
        match &self.meta.next_token {
            Some(s) => Some(s.as_str()),
            None => None,
        }
    }
}

/// Paging metadata of a recent-search response.
#[derive(Debug, Clone)]
pub struct SearchMetaInner {
    pub result_count: i32,
    pub newest_id: Option<String>,
    pub oldest_id: Option<String>,
    pub next_token: Option<String>,
}

/// Paging metadata envelope of a recent-search response.
#[derive(Debug, Clone)]
pub struct SearchMeta {
    pub meta: SearchMetaInner,
}

impl SearchMeta {
    pub fn result_count(&self) -> (r: i32)
        ensures
            r == self.meta.result_count,
    {
        self.meta.result_count
    }

    pub fn newest_id(&self) -> (r: Option<&str>)
        ensures
            r is Some <==> self.meta.newest_id is Some,
            r matches Some(s) ==> self.meta.newest_id matches Some(t) && s@ == t@,
    {
        match &self.meta.newest_id {
            Some(s) => Some(s.as_str()),
            None => None,
        }
    }

    pub fn oldest_id(&self) -> (r: Option<&str>)
        ensures
            r is Some <==> self.meta.oldest_id is Some,
            r matches Some(s) ==> self.meta.oldest_id matches Some(t) && s@ == t@,
    {
        match &self.meta.oldest_id {
            Some(s) => Some(s.as_str()),
            None => None,
        }
    }

    pub fn next_token(&self) -> (r: Option<&str>)
        ensures
            r is Some <==> self.meta.next_token is Some,
            r matches Some(s) ==> self.meta.next_token matches Some(t) && s@ == t@,
    {
        match &self.meta.next_token {
            Some(s) => Some(s.as_str()),
            None => None,
        }
    }
}

/// One error document returned by the provider.
#[derive(Debug, Clone)]
pub struct TwitterError {
    pub title: String,
    pub detail: String,
    pub ty: String,
}

/// An error response of the provider: a list of error documents.
#[derive(Debug, Clone)]
pub struct ResponseError {
    pub errors: Vec<TwitterError>,
}

/// The details of the error documents joined with single spaces.
pub open spec fn spec_join_details(errs: Seq<TwitterError>) -> Seq<char>
    decreases errs.len(),
{
    if errs.len() == 0 {
        Seq::empty()
    } else if errs.len() == 1 {
        errs[0].detail@
    } else {
        errs[0].detail@ + " "@ + spec_join_details(errs.drop_first())
    }
}

impl ResponseError {
    /// One line naming every error detail the provider returned.
    pub fn message(&self) -> (r: String)
        ensures
            r@ == spec_join_details(self.errors@),
    {
        let n = self.errors.len();
        let mut out = String::new();
        let mut i: usize = 0;
        while i < n
            invariant
                0 <= i <= n,
                n == self.errors@.len(),
                i == 0 ==> out@ == Seq::<char>::empty(),
                (0 < i && i < n) ==> spec_join_details(self.errors@) == out@ + " "@
                    + spec_join_details(self.errors@.skip(i as int)),
                i == n ==> out@ == spec_join_details(self.errors@),
            decreases n - i,
        {
            proof {
                assert(self.errors@.skip(i as int)[0] == self.errors@[i as int]);
                assert(self.errors@.skip(i as int).drop_first() =~= self.errors@.skip(i + 1));
                assert(self.errors@.skip(0) =~= self.errors@);
            }
            if i > 0 {
                out.append(" ");
            }
            out.append(self.errors[i].detail.as_str());
            proof {
                if i + 1 < n {
                    assert(spec_join_details(self.errors@) =~= out@ + " "@ + spec_join_details(
                        self.errors@.skip(i + 1),
                    ));
                } else {
                    assert(out@ =~= spec_join_details(self.errors@));
                }
            }
            i = i + 1;
        }
        proof {
            if n == 0 {
                assert(out@ =~= spec_join_details(self.errors@));
            }
        }
        out
    }
}

} // verus!
