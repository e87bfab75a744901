//! List and timeline ingest: per-subject cursors, the since-filter applied
//! to fetched pages, pagination and catch-up decisions, and the notices
//! sent instead of per-tweet messages on catch-up or first-time runs.

use vstd::prelude::*;

use crate::cache::CacheItem;
use crate::model::Tweet;
use crate::text::{lex_le, lex_lt, spec_dec, str_lt, u64_to_string};

verus! {

/// How a persisted cursor may move: an uninitialized cursor may take any
/// value; an initialized one only stays or advances in tweet-ID order, and
/// never becomes uninitialized again.
pub open spec fn cursor_advances(before: Option<Seq<char>>, after: Option<Seq<char>>) -> bool {
    match (before, after) {
        (None, _) => true,
        (Some(b), Some(a)) => lex_le(b, a),
        (Some(_), None) => false,
    }
}

/// The character view of an optional cursor value.
pub open spec fn head_view(head: Option<String>) -> Option<Seq<char>> {
    match head {
        Some(s) => Some(s@),
        None => None,
    }
}

/// Cursor monotonicity is preserved across any number of ticks: each tick
/// only advancing the head keeps the whole history nondecreasing.
pub proof fn lemma_cursor_monotonic(
    h0: Option<Seq<char>>,
    h1: Option<Seq<char>>,
    h2: Option<Seq<char>>,
)
    requires
        cursor_advances(h0, h1),
        cursor_advances(h1, h2),
    ensures
        cursor_advances(h0, h2),
{
    match (h0, h1, h2) {
        (Some(a), Some(b), Some(c)) => {
            crate::text::lemma_lex_le_trans(a, b, c);
        },
        _ => {},
    }
}

/// The longest prefix of a fetched page (server order, newest first) whose
/// tweet IDs are strictly newer than the cursor.
pub open spec fn spec_take_newer(data: Seq<Tweet>, since: Seq<char>) -> Seq<Tweet>
    decreases data.len(),
{
    if data.len() == 0 {
        Seq::empty()
    } else if lex_lt(since, data[0].id@) {
        seq![data[0]] + spec_take_newer(data.drop_first(), since)
    } else {
        Seq::empty()
    }
}

/// Everything the since-filter keeps is strictly newer than the cursor.
pub proof fn lemma_take_newer_all_newer(data: Seq<Tweet>, since: Seq<char>)
    ensures
        forall|i: int|
            0 <= i < spec_take_newer(data, since).len() ==> lex_lt(
                since,
                #[trigger] spec_take_newer(data, since)[i].id@,
            ),
    decreases data.len(),
{
    if data.len() > 0 && lex_lt(since, data[0].id@) {
        lemma_take_newer_all_newer(data.drop_first(), since);
    }
}

/// What the since-filter keeps still satisfies the cursor-advance
/// precondition after the batch is reversed into chronological order: the
/// whole list tick — filter, reverse, advance — moves the head forward
/// only.
pub proof fn lemma_filtered_batch_advances_cursor(data: Seq<Tweet>, since: Seq<char>)
    ensures
        forall|i: int|
            0 <= i < spec_take_newer(data, since).reverse().len() ==> lex_lt(
                since,
                #[trigger] spec_take_newer(data, since).reverse()[i].id@,
            ),
{
    lemma_take_newer_all_newer(data, since);
    let kept = spec_take_newer(data, since);
    assert(forall|i: int|
        0 <= i < kept.reverse().len() ==> kept.reverse()[i] == kept[kept.len() - 1 - i]);
}

/// Keeps the prefix of the page that is strictly newer than `since`,
/// dropping the rest: tweets at or below the cursor were already emitted.
pub fn take_newer(data: Vec<Tweet>, since: &str) -> (r: Vec<Tweet>)
    ensures
        r@ == spec_take_newer(data@, since@),
{
    let ghost orig = data@;
    let mut data = data;
    let n = data.len();
    let mut i: usize = 0;
    proof {
        assert(data@.skip(0) =~= data@);
        assert(data@.subrange(0, 0) =~= Seq::<Tweet>::empty());
    }
    while i < n
        invariant
            0 <= i <= n,
            n == data@.len(),
            spec_take_newer(data@, since@) == data@.subrange(0, i as int) + spec_take_newer(
                data@.skip(i as int),
                since@,
            ),
            forall|j: int| 0 <= j < i ==> lex_lt(since@, data@[j].id@),
        ensures
            0 <= i <= n,
            n == data@.len(),
            spec_take_newer(data@, since@) == data@.subrange(0, i as int),
        decreases n - i,
    {
        proof {
            assert(data@.skip(i as int)[0] == data@[i as int]);
        }
        if !str_lt(since, data[i].id.as_str()) {
            proof {
                assert(spec_take_newer(data@.skip(i as int), since@) =~= Seq::<Tweet>::empty());
                assert(spec_take_newer(data@, since@) =~= data@.subrange(0, i as int));
            }
            break ;
        }
        proof {
            assert(data@.skip(i as int).drop_first() =~= data@.skip(i + 1));
            assert(data@.subrange(0, i as int) + seq![data@[i as int]] =~= data@.subrange(
                0,
                i + 1,
            ));
            assert(data@.subrange(0, i as int) + (seq![data@[i as int]] + spec_take_newer(
                data@.skip(i + 1),
                since@,
            )) =~= data@.subrange(0, i + 1) + spec_take_newer(data@.skip(i + 1), since@));
        }
        i = i + 1;
    }
    proof {
        if i == n {
            assert(spec_take_newer(data@.skip(n as int), since@) =~= Seq::<Tweet>::empty());
            assert(spec_take_newer(data@, since@) =~= data@.subrange(0, n as int));
        }
    }
    data.truncate(i);
    proof {
        assert(data@ =~= spec_take_newer(orig, since@));
    }
    data
}

/// Reverses a batch into chronological order (oldest first).
pub fn reverse_tweets(data: Vec<Tweet>) -> (r: Vec<Tweet>)
    ensures
        r@ == data@.reverse(),
{
    let ghost orig = data@;
    let mut data = data;
    let mut out: Vec<Tweet> = Vec::new();
    proof {
        assert(orig.skip(orig.len() as int).reverse() =~= Seq::<Tweet>::empty());
    }
    while data.len() > 0
        invariant
            data@.len() <= orig.len(),
            data@ == orig.take(data@.len() as int),
            out@ == orig.skip(data@.len() as int).reverse(),
        decreases data@.len(),
    {
        let ghost oldview = data@;
        let ghost k = data@.len() - 1;
        let t = data.pop().unwrap();
        out.push(t);
        proof {
            assert(oldview == orig.take(oldview.len() as int));
            assert(data@ == oldview.subrange(0, oldview.len() - 1));
            assert(data@ =~= orig.take(k as int));
            assert(t == oldview[oldview.len() - 1]);
            assert(orig.take(oldview.len() as int)[oldview.len() - 1] == orig[oldview.len() - 1]);
            assert(t == orig[k]);
            assert(out@ =~= orig.skip(k as int).reverse()) by {
                let s = orig.skip(k as int);
                assert(s.reverse().len() == s.len());
                assert(forall|j: int| 0 <= j < s.len() ==> s.reverse()[j] == s[s.len() - 1 - j]);
                assert(forall|j: int| 0 <= j < s.len() ==> s[j] == orig[k + j]);
            }
        }
    }
    proof {
        assert(orig.take(0) =~= Seq::<Tweet>::empty());
        assert(out@ =~= orig.reverse()) by {
            assert(orig.skip(0) =~= orig);
        }
    }
    out
}

/// How many tweets one list fetch asks for: 1 to initialize a fresh cursor,
/// 100 while catching up, 5 in steady state.
pub fn list_max_results(head_present: bool, catchup: bool) -> (r: u32)
    ensures
        r == (if !head_present {
            1u32
        } else if catchup {
            100u32
        } else {
            5u32
        }),
{
    if !head_present {
        1
    } else if catchup {
        100
    } else {
        5
    }
}

/// How many tweets one timeline fetch asks for: 100 while catching up an
/// initialized cursor, 5 otherwise.
pub fn timeline_max_results(head_present: bool, catchup: bool) -> (r: u32)
    ensures
        r == (if head_present && catchup {
            100u32
        } else {
            5u32
        }),
{
    if head_present && catchup {
        100
    } else {
        5
    }
}

/// Whether pagination continues: only while the server filled the whole
/// page (the filtered count matches its reported count) and gave a next
/// token.
pub fn should_fetch_next_page(kept_len: usize, result_count: i32, has_next_token: bool) -> (r:
    bool)
    ensures
        r == (kept_len as int == result_count as int && has_next_token),
{
    kept_len <= i32::MAX as usize && kept_len as i32 == result_count && has_next_token
}

/// A per-list (or per-user-timeline) cursor: the ID of the newest tweet
/// already emitted. `head == None` means no emissions yet.
#[derive(Debug, Clone)]
pub struct ListHead {
    pub id: String,
    pub head: Option<String>,
}

impl CacheItem for ListHead {
    fn key(&self) -> &str {
        self.id.as_str()
    }
}

impl ListHead {
    pub fn new(id: String, head: Option<String>) -> (r: Self)
        ensures
            r.id == id,
            r.head == head,
    {
        ListHead { id, head }
    }

    pub fn id(&self) -> (r: &str)
        ensures
            r@ == self.id@,
    {
        self.id.as_str()
    }

    pub fn head(&self) -> (r: Option<&str>)
        ensures
            r is Some <==> self.head is Some,
            r matches Some(s) ==> self.head matches Some(t) && s@ == t@,
    {
        match &self.head {
            Some(s) => Some(s.as_str()),
            None => None,
        }
    }

    /// Moves the cursor to the last tweet of a fetched batch (chronological
    /// order, so the last is the newest). An empty batch leaves the cursor
    /// alone. The cursor never moves backwards: every batch entry is
    /// strictly newer than the old head.
    pub fn update_from_batch(&mut self, data: &Vec<Tweet>)
        requires
            old(self).head matches Some(h) ==> forall|i: int|
                0 <= i < data@.len() ==> lex_lt(h@, #[trigger] data@[i].id@),
        ensures
            final(self).id == old(self).id,
            data@.len() == 0 ==> *final(self) == *old(self),
            data@.len() > 0 ==> (final(self).head matches Some(h) && h@ == data@.last().id@),
            cursor_advances(head_view(old(self).head), head_view(final(self).head)),
    {
        if data.len() > 0 {
            self.head = Some(data[data.len() - 1].id.clone());
        }
    }
}

/// A per-user timeline cursor, same shape and contract as a list cursor.
#[derive(Debug, Clone)]
pub struct UserTimelineHead {
    pub id: String,
    pub head: Option<String>,
}

impl CacheItem for UserTimelineHead {
    fn key(&self) -> &str {
        self.id.as_str()
    }
}

impl UserTimelineHead {
    pub fn new(id: String, head: Option<String>) -> (r: Self)
        ensures
            r.id == id,
            r.head == head,
    {
        UserTimelineHead { id, head }
    }

    pub fn id(&self) -> (r: &str)
        ensures
            r@ == self.id@,
    {
        self.id.as_str()
    }

    pub fn head(&self) -> (r: Option<&str>)
        ensures
            r is Some <==> self.head is Some,
            r matches Some(s) ==> self.head matches Some(t) && s@ == t@,
    {
        match &self.head {
            Some(s) => Some(s.as_str()),
            None => None,
        }
    }

    /// Moves the cursor to the last tweet of a fetched batch; see
    /// `ListHead::update_from_batch`.
    pub fn update_from_batch(&mut self, data: &Vec<Tweet>)
        requires
            old(self).head matches Some(h) ==> forall|i: int|
                0 <= i < data@.len() ==> lex_lt(h@, #[trigger] data@[i].id@),
        ensures
            final(self).id == old(self).id,
            data@.len() == 0 ==> *final(self) == *old(self),
            data@.len() > 0 ==> (final(self).head matches Some(h) && h@ == data@.last().id@),
            cursor_advances(head_view(old(self).head), head_view(final(self).head)),
    {
        if data.len() > 0 {
            self.head = Some(data[data.len() - 1].id.clone());
        }
    }
}

/// What a tick broadcasts for one subject.
#[derive(Debug, Copy, Clone, Eq, PartialEq, Structural)]
pub enum ListNotice {
    /// Catch-up found more than five tweets: send one skip notice naming
    /// the count instead of per-tweet messages.
    Skip,
    /// The cursor was just initialized: send one notice, no per-tweet
    /// messages.
    Initialized,
    /// Send each tweet individually.
    PerTweet,
}

/// Picks the notice for one subject's tick, as a function of the catch-up
/// flag, whether the cursor was uninitialized before the tick, and how many
/// tweets the tick produced.
pub fn list_notice(catchup: bool, first_time: bool, tweet_count: usize) -> (r: ListNotice)
    ensures
        r == (if catchup && tweet_count > 5 {
            ListNotice::Skip
        } else if first_time {
            ListNotice::Initialized
        } else {
            ListNotice::PerTweet
        }),
{
    if catchup && tweet_count > 5 {
        ListNotice::Skip
    } else if first_time {
        ListNotice::Initialized
    } else {
        ListNotice::PerTweet
    }
}

/// The one-line notice sent when catch-up skips a batch.
pub fn catchup_message(list_id: &str, tweet_count: u64) -> (r: String)
    ensures
        r@ == "Skipping "@ + spec_dec(tweet_count as int) + " tweet"@ + (if tweet_count == 1 {
            ""@
        } else {
            "s"@
        }) + " of list `"@ + list_id@ + "` during list catch-up"@,
{
    let mut s = String::new();
    s.append("Skipping ");
    let count = u64_to_string(tweet_count);
    s.append(count.as_str());
    s.append(" tweet");
    if tweet_count != 1 {
        s.append("s");
    }
    s.append(" of list `");
    s.append(list_id);
    s.append("` during list catch-up");
    proof {
        reveal_strlit("");
        if tweet_count == 1 {
            assert(s@ =~= "Skipping "@ + spec_dec(tweet_count as int) + " tweet"@ + ""@
                + " of list `"@ + list_id@ + "` during list catch-up"@);
        } else {
            assert(s@ =~= "Skipping "@ + spec_dec(tweet_count as int) + " tweet"@ + "s"@
                + " of list `"@ + list_id@ + "` during list catch-up"@);
        }
    }
    s
}

/// The one-line notice sent when a cursor is initialized for the first
/// time.
pub fn first_time_message(list_id: &str) -> (r: String)
    ensures
        r@ == "List `"@ + list_id@ + "` initialized"@,
{
    let mut s = String::new();
    s.append("List `");
    s.append(list_id);
    s.append("` initialized");
    proof {
        assert(s@ =~= "List `"@ + list_id@ + "` initialized"@);
    }
    s
}

} // verus!
