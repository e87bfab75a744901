//! Recent-search ingest: a per-term cursor whose head is the newest
//! observed tweet ID, and a pager that walks the paged results, remembering
//! the newest ID of the sweep and the next page token.

use vstd::prelude::*;

use crate::list::cursor_advances;
use crate::model::opt_string_view;
use crate::model::SearchMeta;
use crate::text::lex_le;

verus! {

/// A per-term search cursor: the newest tweet ID observed for the term.
/// `head == None` means the term was never fetched (unbound).
#[derive(Debug, Clone)]
pub struct SearchHead {
    pub term: String,
    pub head: Option<String>,
}

impl SearchHead {
    pub fn new(term: String, head: Option<String>) -> (r: Self)
        ensures
            r.term == term,
            r.head == head,
    {
        SearchHead { term, head }
    }

    pub fn term(&self) -> (r: &str)
        ensures
            r@ == self.term@,
    {
        self.term.as_str()
    }

    pub fn head(&self) -> (r: Option<&str>)
        ensures
            r is Some <==> self.head is Some,
            r matches Some(s) ==> self.head matches Some(t) && s@ == t@,
    {
        match &self.head {
            Some(s) => Some(s.as_str()),
            None => None,
        }
    }

    /// Whether the cursor was never initialized.
    pub fn is_unbound(&self) -> (r: bool)
        ensures
            r == (self.head is None),
    {
        self.head.is_none()
    }

    /// Starts a page sweep: no newest ID observed yet, and a first request
    /// without a page token.
    pub fn pager(&self) -> (r: SearchPager)
        ensures
            r.unbound == (self.head is None),
            r.newest_id is None,
            r.next_token matches Some(t) && t is None,
    {
        SearchPager { unbound: self.head.is_none(), newest_id: None, next_token: Some(None) }
    }
}

/// One page sweep over a term's recent results: whether the cursor was
/// uninitialized when the sweep began, the newest ID the sweep has
/// observed, and the token of the next page (`None` once pagination ends;
/// `Some(None)` before the first page).
#[derive(Debug, Clone)]
pub struct SearchPager {
    pub unbound: bool,
    pub newest_id: Option<String>,
    pub next_token: Option<Option<String>>,
}

impl SearchPager {
    /// Whether the cursor was uninitialized when the sweep began.
    pub fn is_unbound(&self) -> (r: bool)
        ensures
            r == self.unbound,
    {
        self.unbound
    }

    /// Whether another page must be fetched.
    pub fn has_next(&self) -> (r: bool)
        ensures
            r == (self.next_token is Some),
    {
        self.next_token.is_some()
    }

    /// The page token to send with the next request, if pagination
    /// continues and the server gave one.
    pub fn current_token(&self) -> (r: Option<&str>)
        ensures
            r is Some <==> (self.next_token matches Some(Some(_))),
            r matches Some(s) ==> (self.next_token matches Some(Some(t)) && s@ == t@),
    {
        match &self.next_token {
            Some(Some(t)) => Some(t.as_str()),
            _ => None,
        }
    }

    /// Folds one page's metadata into the sweep: the first page fixes the
    /// newest observed ID (the server reports pages newest-first), and the
    /// next-token decides whether pagination continues.
    pub fn absorb_page(&mut self, meta: &SearchMeta)
        ensures
            final(self).unbound == old(self).unbound,
            old(self).newest_id is Some ==> final(self).newest_id == old(self).newest_id,
            old(self).newest_id is None ==> opt_string_view(final(self).newest_id)
                == opt_string_view(meta.meta.newest_id),
            token_view(final(self).next_token) == opt_string_view(meta.meta.next_token),
    {
        if self.newest_id.is_none() {
            self.newest_id = match &meta.meta.newest_id {
                Some(s) => Some(s.clone()),
                None => None,
            };
        }
        self.next_token = match &meta.meta.next_token {
            Some(s) => Some(Some(s.clone())),
            None => None,
        };
    }

    /// Ends the sweep: when at least one page was seen, the cursor's head
    /// becomes the newest observed ID; otherwise the cursor is unchanged.
    pub fn apply_head(self, head: &mut SearchHead)
        ensures
            final(head).term == old(head).term,
            self.newest_id is Some ==> final(head).head == self.newest_id,
            self.newest_id is None ==> final(head).head == old(head).head,
    {
        if let Some(id) = self.newest_id {
            head.head = Some(id);
        }
    }
}

/// The view of a pagination token state, flattened: `None` both when
/// pagination ended and before any page.
pub open spec fn token_view(t: Option<Option<String>>) -> Option<Seq<char>> {
    match t {
        Some(Some(s)) => Some(s@),
        _ => None,
    }
}

/// How many tweets one search page asks for: 20 on the initializing sweep
/// of an unbound cursor (a single page), 100 afterwards.
pub fn search_max_results(unbound: bool) -> (r: u32)
    ensures
        r == (if unbound {
            20u32
        } else {
            100u32
        }),
{
    if unbound {
        20
    } else {
        100
    }
}

/// Cursor monotonicity for the search engine: the head only moves to an ID
/// at or above the old head. The hypothesis — the newest ID of a sweep
/// scoped by `since_id = head` is never below the head — is what the
/// provider's paging contract gives.
pub proof fn lemma_search_head_advances(before: Option<Seq<char>>, newest: Option<Seq<char>>)
    requires
        match (before, newest) {
            (Some(b), Some(n)) => lex_le(b, n),
            _ => true,
        },
    ensures
        cursor_advances(
            before,
            match newest {
                Some(n) => Some(n),
                None => before,
            },
        ),
{
}

} // verus!
