//! Filtered-stream framing: the persistent connection delivers raw byte
//! chunks; the library splits them on newlines into complete lines and a
//! pending remainder, so the caller can decode one bundle per line.

use vstd::prelude::*;

verus! {

/// The newline byte the stream frames on.
pub const LINE_FEED: u8 = 10;

/// Lines joined back together with a newline after each one, followed by
/// the unterminated remainder: the inverse of splitting.
pub open spec fn spec_join_lines(lines: Seq<Seq<u8>>, rest: Seq<u8>) -> Seq<u8>
    decreases lines.len(),
{
    if lines.len() == 0 {
        rest
    } else {
        lines[0] + seq![LINE_FEED] + spec_join_lines(lines.drop_first(), rest)
    }
}

/// Joining distributes over the remainder.
proof fn lemma_join_rest(lines: Seq<Seq<u8>>, rest: Seq<u8>)
    ensures
        spec_join_lines(lines, rest) == spec_join_lines(lines, Seq::empty()) + rest,
    decreases lines.len(),
{
    if lines.len() == 0 {
        assert(spec_join_lines(lines, rest) =~= spec_join_lines(lines, Seq::empty()) + rest);
    } else {
        lemma_join_rest(lines.drop_first(), rest);
        assert(lines[0] + seq![LINE_FEED] + (spec_join_lines(lines.drop_first(), Seq::empty())
            + rest) =~= (lines[0] + seq![LINE_FEED] + spec_join_lines(
            lines.drop_first(),
            Seq::empty(),
        )) + rest);
    }
}

/// Completing a line moves it from the remainder into the line list.
proof fn lemma_join_push(lines: Seq<Seq<u8>>, l: Seq<u8>, rest: Seq<u8>)
    ensures
        spec_join_lines(lines.push(l), rest) == spec_join_lines(lines, l + seq![LINE_FEED] + rest),
    decreases lines.len(),
{
    if lines.len() == 0 {
        let p = lines.push(l);
        assert(p.len() == 1);
        assert(p[0] == l);
        assert(p.drop_first() =~= Seq::<Seq<u8>>::empty());
        assert(spec_join_lines(p.drop_first(), rest) == rest);
        assert(spec_join_lines(p, rest) == p[0] + seq![LINE_FEED] + spec_join_lines(
            p.drop_first(),
            rest,
        ));
        assert(spec_join_lines(lines, l + seq![LINE_FEED] + rest) =~= l + seq![LINE_FEED] + rest);
    } else {
        assert(lines.push(l)[0] == lines[0]);
        assert(lines.push(l).drop_first() =~= lines.drop_first().push(l));
        lemma_join_push(lines.drop_first(), l, rest);
    }
}

/// No byte of the sequence is a newline.
pub open spec fn no_line_feed(s: Seq<u8>) -> bool {
    forall|i: int| 0 <= i < s.len() ==> s[i] != LINE_FEED
}

/// Splits the pending buffer plus one incoming chunk into the complete
/// lines now available and the new pending remainder. Joining the result
/// back together gives exactly the input, no line or remainder holds a
/// newline, and nothing is lost or reordered.
pub fn split_lines(buffer: Vec<u8>, chunk: &[u8]) -> (r: (Vec<Vec<u8>>, Vec<u8>))
    requires
        no_line_feed(buffer@),
    ensures
        spec_join_lines(r.0@.map_values(|l: Vec<u8>| l@), r.1@) == buffer@ + chunk@,
        forall|i: int| 0 <= i < r.0@.len() ==> no_line_feed(#[trigger] r.0@[i]@),
        no_line_feed(r.1@),
{
    let mut lines: Vec<Vec<u8>> = Vec::new();
    let mut cur: Vec<u8> = buffer;
    let n = chunk.len();
    let mut i: usize = 0;
    proof {
        assert(lines@.map_values(|l: Vec<u8>| l@) =~= Seq::<Seq<u8>>::empty());
        assert(chunk@.take(0) =~= Seq::<u8>::empty());
        assert(cur@ + chunk@.take(0) =~= cur@);
    }
    while i < n
        invariant
            0 <= i <= n,
            n == chunk@.len(),
            spec_join_lines(lines@.map_values(|l: Vec<u8>| l@), cur@) == buffer@ + chunk@.take(
                i as int,
            ),
            forall|j: int| 0 <= j < lines@.len() ==> no_line_feed(#[trigger] lines@[j]@),
            no_line_feed(cur@),
        decreases n - i,
    {
        let ghost lv = lines@.map_values(|l: Vec<u8>| l@);
        let ghost cv = cur@;
        let b = chunk[i];
        if b == LINE_FEED {
            lines.push(cur);
            cur = Vec::new();
            proof {
                assert(lines@.map_values(|l: Vec<u8>| l@) =~= lv.push(cv));
                assert(cur@ =~= Seq::<u8>::empty());
                lemma_join_push(lv, cv, Seq::<u8>::empty());
                assert(cv + seq![LINE_FEED] + Seq::<u8>::empty() =~= cv + seq![LINE_FEED]);
                lemma_join_rest(lv, cv + seq![LINE_FEED]);
                lemma_join_rest(lv, cv);
                assert(spec_join_lines(lv, Seq::empty()) + (cv + seq![LINE_FEED])
                    =~= (spec_join_lines(lv, Seq::empty()) + cv) + seq![LINE_FEED]);
                assert((buffer@ + chunk@.take(i as int)) + seq![LINE_FEED] =~= buffer@
                    + chunk@.take(i + 1));
                assert(spec_join_lines(lines@.map_values(|l: Vec<u8>| l@), cur@) == buffer@
                    + chunk@.take(i + 1));
            }
        } else {
            cur.push(b);
            proof {
                lemma_join_rest(lv, cv);
                lemma_join_rest(lv, cur@);
                assert(cur@ =~= cv + seq![b]);
                assert(spec_join_lines(lv, Seq::empty()) + (cv + seq![b]) =~= (spec_join_lines(
                    lv,
                    Seq::empty(),
                ) + cv) + seq![b]);
                assert((buffer@ + chunk@.take(i as int)) + seq![b] =~= buffer@ + chunk@.take(
                    i + 1,
                ));
            }
        }
        i = i + 1;
    }
    proof {
        assert(chunk@.take(n as int) =~= chunk@);
    }
    (lines, cur)
}

} // verus!
