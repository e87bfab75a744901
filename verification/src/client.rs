//! Provider-client support: chunking of bulk retrieves, merging of paged
//! responses into one bundle, and the classification of transport failures
//! that feeds the backoff controller.

use vstd::prelude::*;

use crate::backoff::BackoffType;
use crate::model::{ResponseIncludes, ResponseItem, Tweet};

verus! {

/// Bulk retrieves go out in chunks of at most this many IDs.
pub const RETRIEVE_CHUNK: usize = 100;

/// Splits a bulk-retrieve ID list into request chunks of at most
/// `RETRIEVE_CHUNK` IDs: chunk `j` holds the IDs from `100·j` on. An empty
/// input yields no chunks, so no request is made at all.
pub fn chunk_ids(ids: &Vec<String>) -> (r: Vec<Vec<String>>)
    ensures
        ids@.len() == 0 ==> r@.len() == 0,
        ids@.len() > 0 ==> (r@.len() - 1) * RETRIEVE_CHUNK < ids@.len() <= r@.len()
            * RETRIEVE_CHUNK,
        forall|j: int|
            0 <= j < r@.len() ==> (#[trigger] r@[j])@.map_values(|s: String| s@)
                == ids@.map_values(|s: String| s@).subrange(
                j * RETRIEVE_CHUNK,
                vstd::math::min((j + 1) * RETRIEVE_CHUNK, ids@.len() as int),
            ),
{
    let n = ids.len();
    let mut out: Vec<Vec<String>> = Vec::new();
    let mut i: usize = 0;
    while i < n
        invariant
            0 <= i <= n,
            n == ids@.len(),
            i == out@.len() * RETRIEVE_CHUNK || (i == n && n <= out@.len() * RETRIEVE_CHUNK && (out@.len()
                - 1) * RETRIEVE_CHUNK < n),
            i < n ==> i == out@.len() * RETRIEVE_CHUNK,
            forall|j: int|
                0 <= j < out@.len() ==> (#[trigger] out@[j])@.map_values(|s: String| s@)
                    == ids@.map_values(|s: String| s@).subrange(
                    j * RETRIEVE_CHUNK,
                    vstd::math::min((j + 1) * RETRIEVE_CHUNK, n as int),
                ),
        decreases n - i,
    {
        let ghost start = i as int;
        let mut chunk: Vec<String> = Vec::new();
        let mut k: usize = 0;
        while k < RETRIEVE_CHUNK && i < n
            invariant
                0 <= k <= RETRIEVE_CHUNK,
                i == start + k,
                start + k <= n,
                n == ids@.len(),
                k < RETRIEVE_CHUNK || i <= n,
                chunk@.len() == k,
                forall|m: int| 0 <= m < k ==> chunk@[m]@ == ids@[start + m]@,
            decreases n - i,
        {
            chunk.push(ids[i].clone());
            i = i + 1;
            k = k + 1;
        }
        proof {
            assert(chunk@.map_values(|s: String| s@) =~= ids@.map_values(
                |s: String| s@,
            ).subrange(start, start + chunk@.len()));
        }
        out.push(chunk);
    }
    out
}

/// The data lists of a sequence of pages, in page order.
pub open spec fn spec_merged_data(pages: Seq<ResponseItem<Vec<Tweet>, Option<()>>>) -> Seq<Tweet>
    decreases pages.len(),
{
    if pages.len() == 0 {
        Seq::empty()
    } else {
        pages[0].data@ + spec_merged_data(pages.drop_first())
    }
}

/// The includes-tweets of a sequence of pages, in page order.
pub open spec fn spec_merged_inc_tweets(pages: Seq<ResponseItem<Vec<Tweet>, Option<()>>>) -> Seq<
    Tweet,
>
    decreases pages.len(),
{
    if pages.len() == 0 {
        Seq::empty()
    } else {
        pages[0].includes.tweets@ + spec_merged_inc_tweets(pages.drop_first())
    }
}

/// The includes-users of a sequence of pages, in page order.
pub open spec fn spec_merged_inc_users(pages: Seq<ResponseItem<Vec<Tweet>, Option<()>>>) -> Seq<
    crate::model::User,
>
    decreases pages.len(),
{
    if pages.len() == 0 {
        Seq::empty()
    } else {
        pages[0].includes.users@ + spec_merged_inc_users(pages.drop_first())
    }
}

/// The includes-media of a sequence of pages, in page order.
pub open spec fn spec_merged_inc_media(pages: Seq<ResponseItem<Vec<Tweet>, Option<()>>>) -> Seq<
    crate::model::Media,
>
    decreases pages.len(),
{
    if pages.len() == 0 {
        Seq::empty()
    } else {
        pages[0].includes.media@ + spec_merged_inc_media(pages.drop_first())
    }
}

/// Merges the chunk responses of one bulk retrieve into a single bundle:
/// the data keeps chunk order, the includes are unioned by `augment`.
pub fn merge_pages(pages: Vec<ResponseItem<Vec<Tweet>, Option<()>>>) -> (r: ResponseItem<
    Vec<Tweet>,
    Option<()>,
>)
    ensures
        r.data@ == spec_merged_data(pages@),
        r.includes.tweets@ == spec_merged_inc_tweets(pages@),
        r.includes.users@ == spec_merged_inc_users(pages@),
        r.includes.media@ == spec_merged_inc_media(pages@),
        r.meta is None,
{
    let ghost orig = pages@;
    let mut pages = pages;
    let mut data: Vec<Tweet> = Vec::new();
    let mut includes = ResponseIncludes::default();
    let ghost mut done: int = 0;
    while pages.len() > 0
        invariant
            0 <= done <= orig.len(),
            pages@ == orig.skip(done),
            data@ + spec_merged_data(pages@) == spec_merged_data(orig),
            includes.tweets@ + spec_merged_inc_tweets(pages@) == spec_merged_inc_tweets(orig),
            includes.users@ + spec_merged_inc_users(pages@) == spec_merged_inc_users(orig),
            includes.media@ + spec_merged_inc_media(pages@) == spec_merged_inc_media(orig),
        decreases pages@.len(),
    {
        proof {
            assert(orig.skip(done).len() > 0);
        }
        let mut page = pages.remove(0);
        data.append(&mut page.data);
        includes.augment(page.includes);
        proof {
            done = done + 1;
            assert(orig.skip(done - 1).drop_first() =~= orig.skip(done));
            assert(pages@ =~= orig.skip(done));
            assert(data@ + spec_merged_data(pages@) =~= spec_merged_data(orig));
            assert(includes.tweets@ + spec_merged_inc_tweets(pages@) =~= spec_merged_inc_tweets(
                orig,
            ));
            assert(includes.users@ + spec_merged_inc_users(pages@) =~= spec_merged_inc_users(
                orig,
            ));
            assert(includes.media@ + spec_merged_inc_media(pages@) =~= spec_merged_inc_media(
                orig,
            ));
        }
    }
    proof {
        assert(data@ =~= spec_merged_data(orig));
        assert(includes.tweets@ =~= spec_merged_inc_tweets(orig));
        assert(includes.users@ =~= spec_merged_inc_users(orig));
        assert(includes.media@ =~= spec_merged_inc_media(orig));
    }
    ResponseItem { data, includes, meta: None }
}

/// Classifies a failed provider call for the backoff controller: connect
/// failures and timeouts are network errors, HTTP 429 is a rate limit, a
/// 5xx status is a server error. Anything else is fatal — not retriable —
/// and classifies as nothing.
pub fn classify_failure(is_connect: bool, is_timeout: bool, status: Option<u16>) -> (r: Option<
    BackoffType,
>)
    ensures
        (is_connect || is_timeout) ==> r == Some(BackoffType::Network),
        (!is_connect && !is_timeout && status == Some(429u16)) ==> r == Some(
            BackoffType::Ratelimit,
        ),
        (!is_connect && !is_timeout && status != Some(429u16)) ==> (match status {
            Some(s) => if 500 <= s < 600 {
                r == Some(BackoffType::Server)
            } else {
                r is None
            },
            None => r is None,
        }),
{
    if is_connect || is_timeout {
        Some(BackoffType::Network)
    } else {
        match status {
            Some(429) => Some(BackoffType::Ratelimit),
            Some(s) => {
                if 500 <= s && s < 600 {
                    Some(BackoffType::Server)
                } else {
                    None
                }
            },
            None => None,
        }
    }
}

} // verus!
