//! Webhook dispatcher support: the rendered message sent for one tweet,
//! and the rate-limit-aware retry decision taken on each POST response.
//!
//! The HTTP calls and the JSON envelope live outside the library; this
//! module fixes every string and number that goes into the message, and
//! what each response status leads to.

use vstd::prelude::*;

use crate::augment::{retweet_resolvable, spec_real_tweet};
use crate::model::{
    opt_string_view, spec_media_url_orig, spec_profile_image_orig, ResponseIncludes, Tweet, User,
};
use crate::text::spec_unescape;

verus! {

/// The embed accent color of every webhook message.
pub const EMBED_COLOR: u32 = 1940464;

/// Pacing between successive deliveries to one destination, milliseconds.
pub const PACING_MS: u64 = 1000;

/// The wait used when a rate-limited response names no reset time,
/// milliseconds.
pub const DEFAULT_RATELIMIT_WAIT_MS: u64 = 5000;

/// A user shown as `Name (@handle)`.
pub open spec fn spec_display_name(u: User) -> Seq<char> {
    u.name@ + " (@"@ + u.username@ + ")"@
}

/// A user's profile URL.
pub open spec fn spec_profile_url(u: User) -> Seq<char> {
    "https://twitter.com/"@ + u.username@
}

/// The canonical URL of a tweet under its author.
pub open spec fn spec_status_url(u: User, t: Tweet) -> Seq<char> {
    "https://twitter.com/"@ + u.username@ + "/status/"@ + t.id@
}

/// Renders `Name (@handle)`.
pub fn display_name(u: &User) -> (r: String)
    ensures
        r@ == spec_display_name(*u),
{
    let mut s = String::new();
    s.append(u.name.as_str());
    s.append(" (@");
    s.append(u.username.as_str());
    s.append(")");
    proof {
        assert(s@ =~= spec_display_name(*u));
    }
    s
}

/// Renders a user's profile URL.
pub fn profile_url(u: &User) -> (r: String)
    ensures
        r@ == spec_profile_url(*u),
{
    let mut s = String::new();
    s.append("https://twitter.com/");
    s.append(u.username.as_str());
    proof {
        assert(s@ =~= spec_profile_url(*u));
    }
    s
}

/// Renders the canonical URL of a tweet.
pub fn status_url(u: &User, t: &Tweet) -> (r: String)
    ensures
        r@ == spec_status_url(*u, *t),
{
    let mut s = String::new();
    s.append("https://twitter.com/");
    s.append(u.username.as_str());
    s.append("/status/");
    s.append(t.id.as_str());
    proof {
        assert(s@ =~= spec_status_url(*u, *t));
    }
    s
}

/// One image attached to the webhook message.
#[derive(Debug, Clone)]
pub struct WebhookImage {
    pub url: Option<String>,
    pub width: u64,
    pub height: u64,
}

/// The rendered webhook message for one tweet: the delivered (original)
/// author names the sender, the real tweet fills the embed. The caller
/// wraps these fields in its wire envelope unchanged.
#[derive(Debug, Clone)]
pub struct WebhookMessage {
    /// `Name (@handle)` of the delivered tweet's author.
    pub username: String,
    /// Their profile image at original size.
    pub avatar_url: Option<String>,
    /// Sensitivity warning, if any, then the real tweet's URL.
    pub content: String,
    /// `Name (@handle)` of the real tweet's author.
    pub author_name: String,
    /// The real author's profile URL.
    pub author_url: String,
    /// The real author's profile image at original size.
    pub author_icon_url: Option<String>,
    /// The real tweet's text, unescaped.
    pub description: String,
    /// The real tweet's creation time, UTC epoch milliseconds.
    pub timestamp_ms: Option<i64>,
    /// The real tweet's URL.
    pub tweet_url: String,
    /// The real tweet's images at original size; empty when the tweet is
    /// possibly sensitive.
    pub images: Vec<WebhookImage>,
}

/// A webhook message can be rendered for this tweet: both authors resolve,
/// and (unless the tweet is possibly sensitive, which suppresses images)
/// all its media keys resolve.
pub open spec fn renderable(tweet: Tweet, includes: ResponseIncludes) -> bool {
    &&& tweet.author_id is Some
    &&& includes.spec_get_user(tweet.author_id.unwrap()@) is Some
    &&& retweet_resolvable(tweet, includes)
    &&& spec_real_tweet(tweet, includes).author_id is Some
    &&& includes.spec_get_user(spec_real_tweet(tweet, includes).author_id.unwrap()@) is Some
    &&& (!(spec_real_tweet(tweet, includes).possibly_sensitive matches Some(true)) ==> forall|
        k: int,
    |
        0 <= k < spec_real_tweet(tweet, includes).attachments.media_keys@.len()
            ==> includes.spec_get_media(
            #[trigger] spec_real_tweet(tweet, includes).attachments.media_keys@[k]@,
        ) is Some)
}

/// Renders the webhook message for one tweet of a batch.
pub fn build_webhook_message(tweet: &Tweet, includes: &ResponseIncludes) -> (r: WebhookMessage)
    requires
        renderable(*tweet, *includes),
    ensures
        ({
            let subject = spec_real_tweet(*tweet, *includes);
            let original_author = includes.spec_get_user(tweet.author_id.unwrap()@).unwrap();
            let author = includes.spec_get_user(subject.author_id.unwrap()@).unwrap();
            let sensitive = subject.possibly_sensitive matches Some(true);
            &&& r.username@ == spec_display_name(original_author)
            &&& opt_string_view(r.avatar_url) == (match original_author.profile_image_url {
                Some(u) => Some(spec_profile_image_orig(u@)),
                None => None::<Seq<char>>,
            })
            &&& (sensitive ==> r.content@ == "\u{26a0} Possibly sensitive\n"@ + spec_status_url(
                author,
                subject,
            ))
            &&& (!sensitive ==> r.content@ == spec_status_url(author, subject))
            &&& r.author_name@ == spec_display_name(author)
            &&& r.author_url@ == spec_profile_url(author)
            &&& opt_string_view(r.author_icon_url) == (match author.profile_image_url {
                Some(u) => Some(spec_profile_image_orig(u@)),
                None => None::<Seq<char>>,
            })
            &&& r.description@ == spec_unescape(subject.text@)
            &&& r.timestamp_ms == subject.created_at
            &&& r.tweet_url@ == spec_status_url(author, subject)
            &&& (sensitive ==> r.images@.len() == 0)
            &&& (!sensitive ==> {
                &&& r.images@.len() == subject.attachments.media_keys@.len()
                &&& forall|k: int|
                    0 <= k < r.images@.len() ==> {
                        let m = includes.spec_get_media(
                            subject.attachments.media_keys@[k]@,
                        ).unwrap();
                        &&& opt_string_view(#[trigger] r.images@[k].url) == spec_media_url_orig(m)
                        &&& r.images@[k].width == m.width
                        &&& r.images@[k].height == m.height
                    }
            })
        }),
{
    let original_author = includes.get_user(tweet.author_id().unwrap()).unwrap();
    let subject: &Tweet = match tweet.get_retweet_source() {
        Some(rt_id) => includes.get_tweet(rt_id).unwrap(),
        None => tweet,
    };
    let author = includes.get_user(subject.author_id().unwrap()).unwrap();

    let sensitive = subject.possibly_sensitive();
    let tweet_url = status_url(author, subject);
    let mut content = String::new();
    if sensitive {
        content.append("\u{26a0} Possibly sensitive\n");
    }
    content.append(tweet_url.as_str());
    proof {
        if sensitive {
            assert(content@ =~= "\u{26a0} Possibly sensitive\n"@ + tweet_url@);
        } else {
            assert(content@ =~= tweet_url@);
        }
    }

    let mut images: Vec<WebhookImage> = Vec::new();
    if !sensitive {
        let keys = &subject.attachments.media_keys;
        let n = keys.len();
        let mut i: usize = 0;
        while i < n
            invariant
                0 <= i <= n,
                n == keys@.len(),
                subject == spec_real_tweet(*tweet, *includes),
                keys == subject.attachments.media_keys,
                forall|k: int|
                    0 <= k < n ==> includes.spec_get_media(#[trigger] keys@[k]@) is Some,
                images@.len() == i,
                forall|k: int|
                    0 <= k < i ==> {
                        let m = includes.spec_get_media(keys@[k]@).unwrap();
                        &&& opt_string_view(#[trigger] images@[k].url) == spec_media_url_orig(m)
                        &&& images@[k].width == m.width
                        &&& images@[k].height == m.height
                    },
            decreases n - i,
        {
            let media = includes.get_media(keys[i].as_str()).unwrap();
            images.push(
                WebhookImage { url: media.url_orig(), width: media.width, height: media.height },
            );
            i = i + 1;
        }
    }

    WebhookMessage {
        username: display_name(original_author),
        avatar_url: original_author.profile_image_url_orig(),
        content,
        author_name: display_name(author),
        author_url: profile_url(author),
        author_icon_url: author.profile_image_url_orig(),
        description: subject.unescaped_text(),
        timestamp_ms: subject.created_at(),
        tweet_url,
        images,
    }
}

/// What the dispatcher does after one POST to a webhook.
#[derive(Debug, Clone, Eq, PartialEq, Structural)]
pub enum WebhookStep {
    /// HTTP 429: wait this many milliseconds, then send again.
    Retry { wait_ms: u64 },
    /// A 2xx response: the delivery is done.
    Success,
    /// Any other status: report and drop the delivery, no retry.
    Failure,
}

/// Decides what one webhook response leads to. On HTTP 429 the wait is the
/// `x-ratelimit-reset-after` header (milliseconds, preferred), else the
/// `retry-after` header (whole seconds), else a fixed five seconds; there
/// is no attempt cap. A 2xx status is success; anything else drops the
/// delivery.
pub fn webhook_step(status: u16, reset_after_ms: Option<u64>, retry_after_secs: Option<u64>) -> (r:
    WebhookStep)
    ensures
        status == 429 ==> r == (WebhookStep::Retry {
            wait_ms: match reset_after_ms {
                Some(ms) => ms,
                None => match retry_after_secs {
                    Some(secs) => vstd::math::min((secs * 1000) as int, u64::MAX as int) as u64,
                    None => DEFAULT_RATELIMIT_WAIT_MS,
                },
            },
        }),
        (status != 429 && 200 <= status < 300) ==> r is Success,
        (status != 429 && !(200 <= status < 300)) ==> r is Failure,
{
    if status == 429 {
        let wait_ms: u64 = match reset_after_ms {
            Some(ms) => ms,
            None => match retry_after_secs {
                Some(secs) => {
                    if secs > u64::MAX / 1000 {
                        u64::MAX
                    } else {
                        secs * 1000
                    }
                },
                None => DEFAULT_RATELIMIT_WAIT_MS,
            },
        };
        WebhookStep::Retry { wait_ms }
    } else if 200 <= status && status < 300 {
        WebhookStep::Success
    } else {
        WebhookStep::Failure
    }
}

} // verus!
