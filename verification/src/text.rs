//! Verified text helpers: string equality and lexicographic order (tweet
//! IDs are totally ordered by their text), decimal rendering, and the
//! HTML-entity unescaping applied to tweet bodies.

use vstd::prelude::*;
use vstd::string::StrSliceExecFns;

verus! {

/// Appends one character to a string.
///
/// Relies on std's `String::push`, which appends the given char to the end
/// of the string.
#[verifier::external_body]
pub fn string_push(s: &mut String, c: char)
    ensures
        final(s)@ == old(s)@ + seq![c],
{
    s.push(c);
}

/// Strict lexicographic order on character sequences: a proper prefix is
/// smaller, otherwise the first differing character decides.
pub open spec fn lex_lt(a: Seq<char>, b: Seq<char>) -> bool
    decreases a.len(),
{
    if b.len() == 0 {
        false
    } else if a.len() == 0 {
        true
    } else if a[0] != b[0] {
        (a[0] as u32) < (b[0] as u32)
    } else {
        lex_lt(a.drop_first(), b.drop_first())
    }
}

/// Non-strict lexicographic order.
pub open spec fn lex_le(a: Seq<char>, b: Seq<char>) -> bool {
    lex_lt(a, b) || a == b
}

/// Lexicographic order is transitive.
pub proof fn lemma_lex_lt_trans(a: Seq<char>, b: Seq<char>, c: Seq<char>)
    requires
        lex_lt(a, b),
        lex_lt(b, c),
    ensures
        lex_lt(a, c),
    decreases a.len(),
{
    if a.len() == 0 || c.len() == 0 || b.len() == 0 {
    } else if a[0] == b[0] && b[0] == c[0] {
        lemma_lex_lt_trans(a.drop_first(), b.drop_first(), c.drop_first());
    }
}

/// Non-strict lexicographic order is transitive.
pub proof fn lemma_lex_le_trans(a: Seq<char>, b: Seq<char>, c: Seq<char>)
    requires
        lex_le(a, b),
        lex_le(b, c),
    ensures
        lex_le(a, c),
{
    if a == b || b == c {
    } else {
        lemma_lex_lt_trans(a, b, c);
    }
}

/// String equality, decided character by character.
pub fn str_eq(a: &str, b: &str) -> (r: bool)
    ensures
        r == (a@ == b@),
{
    let alen = a.unicode_len();
    let blen = b.unicode_len();
    if alen != blen {
        return false;
    }
    let mut i: usize = 0;
    while i < alen
        invariant
            0 <= i <= alen,
            alen == a@.len(),
            alen == b@.len(),
            forall|j: int| 0 <= j < i ==> a@[j] == b@[j],
        decreases alen - i,
    {
        if a.get_char(i) != b.get_char(i) {
            return false;
        }
        i = i + 1;
    }
    proof {
        assert(a@ =~= b@);
    }
    true
}

/// Strict lexicographic comparison of two strings.
pub fn str_lt(a: &str, b: &str) -> (r: bool)
    ensures
        r == lex_lt(a@, b@),
    decreases a@.len(),
{
    let alen = a.unicode_len();
    let blen = b.unicode_len();
    let mut i: usize = 0;
    proof {
        assert(a@.skip(0) =~= a@);
        assert(b@.skip(0) =~= b@);
    }
    loop
        invariant
            0 <= i <= alen,
            i <= blen,
            alen == a@.len(),
            blen == b@.len(),
            lex_lt(a@, b@) == lex_lt(a@.skip(i as int), b@.skip(i as int)),
        ensures
            lex_lt(a@, b@) == (if i < blen {
                i >= alen || (a@[i as int] as u32) < (b@[i as int] as u32)
            } else {
                false
            }),
        decreases alen - i,
    {
        if i >= blen {
            // b is exhausted: a is not smaller.
            assert(lex_lt(a@.skip(i as int), b@.skip(i as int)) == false);
            break ;
        }
        if i >= alen {
            // a is a proper prefix of b.
            assert(lex_lt(a@.skip(i as int), b@.skip(i as int)) == true);
            break ;
        }
        let ca = a.get_char(i);
        let cb = b.get_char(i);
        if ca != cb {
            assert(a@.skip(i as int)[0] == a@[i as int]);
            assert(b@.skip(i as int)[0] == b@[i as int]);
            break ;
        }
        proof {
            assert(a@.skip(i as int).drop_first() =~= a@.skip(i + 1));
            assert(b@.skip(i as int).drop_first() =~= b@.skip(i + 1));
        }
        i = i + 1;
    }
    if i < blen {
        if i >= alen {
            true
        } else {
            (a.get_char(i) as u32) < (b.get_char(i) as u32)
        }
    } else {
        false
    }
}

/// The decimal digit character for `d`.
pub open spec fn spec_digit(d: int) -> char {
    if d == 0 {
        '0'
    } else if d == 1 {
        '1'
    } else if d == 2 {
        '2'
    } else if d == 3 {
        '3'
    } else if d == 4 {
        '4'
    } else if d == 5 {
        '5'
    } else if d == 6 {
        '6'
    } else if d == 7 {
        '7'
    } else if d == 8 {
        '8'
    } else {
        '9'
    }
}

/// Decimal rendering of a nonnegative integer, most significant digit first.
pub open spec fn spec_dec(n: int) -> Seq<char>
    decreases n,
{
    if n < 10 {
        seq![spec_digit(n)]
    } else {
        spec_dec(n / 10) + seq![spec_digit(n % 10)]
    }
}

fn digit_char(d: u64) -> (r: char)
    requires
        d < 10,
    ensures
        r == spec_digit(d as int),
{
    match d {
        0 => '0',
        1 => '1',
        2 => '2',
        3 => '3',
        4 => '4',
        5 => '5',
        6 => '6',
        7 => '7',
        8 => '8',
        _ => '9',
    }
}

/// Renders a number in decimal.
pub fn u64_to_string(n: u64) -> (r: String)
    ensures
        r@ == spec_dec(n as int),
    decreases n,
{
    if n < 10 {
        let mut s = String::new();
        string_push(&mut s, digit_char(n));
        proof {
            assert(s@ =~= spec_dec(n as int));
        }
        s
    } else {
        let mut s = u64_to_string(n / 10);
        string_push(&mut s, digit_char(n % 10));
        proof {
            assert(s@ =~= spec_dec(n as int));
        }
        s
    }
}

} // verus!

verus! {

/// Tweet text with the three HTML entities the provider escapes turned back
/// into their characters: `&lt;` to `<`, `&gt;` to `>`, `&amp;` to `&`, in
/// one left-to-right pass.
pub open spec fn spec_unescape(s: Seq<char>) -> Seq<char>
    decreases s.len(),
{
    if s.len() == 0 {
        Seq::empty()
    } else if s.len() >= 4 && s[0] == '&' && s[1] == 'l' && s[2] == 't' && s[3] == ';' {
        seq!['<'] + spec_unescape(s.skip(4))
    } else if s.len() >= 4 && s[0] == '&' && s[1] == 'g' && s[2] == 't' && s[3] == ';' {
        seq!['>'] + spec_unescape(s.skip(4))
    } else if s.len() >= 5 && s[0] == '&' && s[1] == 'a' && s[2] == 'm' && s[3] == 'p' && s[4]
        == ';' {
        seq!['&'] + spec_unescape(s.skip(5))
    } else {
        seq![s[0]] + spec_unescape(s.drop_first())
    }
}

/// Undoes the provider's HTML escaping of `<`, `>` and `&`.
pub fn unescape(s: &str) -> (r: String)
    ensures
        r@ == spec_unescape(s@),
{
    let len = s.unicode_len();
    let mut out = String::new();
    let mut i: usize = 0;
    proof {
        assert(s@.skip(0) =~= s@);
    }
    while i < len
        invariant
            0 <= i <= len,
            len == s@.len(),
            spec_unescape(s@) == out@ + spec_unescape(s@.skip(i as int)),
        decreases len - i,
    {
        let ghost rest = s@.skip(i as int);
        proof {
            assert(rest.len() == len - i);
            assert forall|j: int| 0 <= j < rest.len() implies rest[j] == s@[i + j] by {}
        }
        if len - i >= 4 && s.get_char(i) == '&' && s.get_char(i + 1) == 'l' && s.get_char(i + 2)
            == 't' && s.get_char(i + 3) == ';' {
            string_push(&mut out, '<');
            proof {
                assert(rest.skip(4) =~= s@.skip(i + 4));
            }
            i = i + 4;
        } else if len - i >= 4 && s.get_char(i) == '&' && s.get_char(i + 1) == 'g' && s.get_char(
            i + 2,
        ) == 't' && s.get_char(i + 3) == ';' {
            string_push(&mut out, '>');
            proof {
                assert(rest.skip(4) =~= s@.skip(i + 4));
            }
            i = i + 4;
        } else if len - i >= 5 && s.get_char(i) == '&' && s.get_char(i + 1) == 'a' && s.get_char(
            i + 2,
        ) == 'm' && s.get_char(i + 3) == 'p' && s.get_char(i + 4) == ';' {
            string_push(&mut out, '&');
            proof {
                assert(rest.skip(5) =~= s@.skip(i + 5));
            }
            i = i + 5;
        } else {
            string_push(&mut out, s.get_char(i));
            proof {
                assert(rest.drop_first() =~= s@.skip(i + 1));
            }
            i = i + 1;
        }
    }
    proof {
        assert(s@.skip(len as int) =~= Seq::<char>::empty());
    }
    out
}

/// The part of a URL before its query string: everything up to the first
/// `?`.
pub open spec fn spec_before_query(s: Seq<char>) -> Seq<char>
    decreases s.len(),
{
    if s.len() == 0 {
        Seq::empty()
    } else if s[0] == '?' {
        Seq::empty()
    } else {
        seq![s[0]] + spec_before_query(s.drop_first())
    }
}

/// Cuts a URL at its query string.
pub fn before_query(s: &str) -> (r: String)
    ensures
        r@ == spec_before_query(s@),
{
    let len = s.unicode_len();
    let mut out = String::new();
    let mut i: usize = 0;
    proof {
        assert(s@.skip(0) =~= s@);
    }
    while i < len
        invariant
            0 <= i <= len,
            len == s@.len(),
            spec_before_query(s@) == out@ + spec_before_query(s@.skip(i as int)),
        ensures
            0 <= i <= len,
            len == s@.len(),
            spec_before_query(s@) == out@ + spec_before_query(s@.skip(i as int)),
            i < len ==> s@[i as int] == '?',
        decreases len - i,
    {
        proof {
            assert(s@.skip(i as int)[0] == s@[i as int]);
        }
        if s.get_char(i) == '?' {
            break ;
        }
        string_push(&mut out, s.get_char(i));
        proof {
            assert(s@.skip(i as int).drop_first() =~= s@.skip(i + 1));
        }
        i = i + 1;
    }
    proof {
        if i == len {
            assert(s@.skip(len as int) =~= Seq::<char>::empty());
        } else {
            assert(spec_before_query(s@.skip(i as int)) =~= Seq::<char>::empty());
        }
        assert(out@ =~= out@ + Seq::<char>::empty());
    }
    out
}

/// A file name with each `_normal.` marker replaced by `.`, in one
/// left-to-right pass.
pub open spec fn spec_strip_normal(s: Seq<char>) -> Seq<char>
    decreases s.len(),
{
    if s.len() == 0 {
        Seq::empty()
    } else if s.len() >= 8 && s[0] == '_' && s[1] == 'n' && s[2] == 'o' && s[3] == 'r' && s[4]
        == 'm' && s[5] == 'a' && s[6] == 'l' && s[7] == '.' {
        seq!['.'] + spec_strip_normal(s.skip(8))
    } else {
        seq![s[0]] + spec_strip_normal(s.drop_first())
    }
}

/// Replaces each `_normal.` size marker by `.`.
pub fn strip_normal(s: &str) -> (r: String)
    ensures
        r@ == spec_strip_normal(s@),
{
    let len = s.unicode_len();
    let mut out = String::new();
    let mut i: usize = 0;
    proof {
        assert(s@.skip(0) =~= s@);
    }
    while i < len
        invariant
            0 <= i <= len,
            len == s@.len(),
            spec_strip_normal(s@) == out@ + spec_strip_normal(s@.skip(i as int)),
        decreases len - i,
    {
        let ghost rest = s@.skip(i as int);
        proof {
            assert(rest.len() == len - i);
            assert forall|j: int| 0 <= j < rest.len() implies rest[j] == s@[i + j] by {}
        }
        if len - i >= 8 && s.get_char(i) == '_' && s.get_char(i + 1) == 'n' && s.get_char(i + 2)
            == 'o' && s.get_char(i + 3) == 'r' && s.get_char(i + 4) == 'm' && s.get_char(i + 5)
            == 'a' && s.get_char(i + 6) == 'l' && s.get_char(i + 7) == '.' {
            string_push(&mut out, '.');
            proof {
                assert(rest.skip(8) =~= s@.skip(i + 8));
            }
            i = i + 8;
        } else {
            string_push(&mut out, s.get_char(i));
            proof {
                assert(rest.drop_first() =~= s@.skip(i + 1));
            }
            i = i + 1;
        }
    }
    proof {
        assert(s@.skip(len as int) =~= Seq::<char>::empty());
    }
    out
}

/// The position just after the last `/` of a URL (0 when it has none):
/// where the file name starts.
pub open spec fn spec_after_last_slash(s: Seq<char>) -> int
    decreases s.len(),
{
    if s.len() == 0 {
        0
    } else if s[s.len() - 1] == '/' {
        s.len() as int
    } else {
        spec_after_last_slash(s.drop_last())
    }
}

/// The file-name start position is a valid split point.
pub proof fn lemma_after_last_slash_bounds(s: Seq<char>)
    ensures
        0 <= spec_after_last_slash(s) <= s.len(),
    decreases s.len(),
{
    if s.len() > 0 && s[s.len() - 1] != '/' {
        lemma_after_last_slash_bounds(s.drop_last());
    }
}

/// Finds where the file name of a URL starts: just after its last `/`.
pub fn after_last_slash(s: &str) -> (r: usize)
    ensures
        r == spec_after_last_slash(s@),
{
    let len = s.unicode_len();
    let mut j: usize = len;
    proof {
        assert(s@.take(len as int) =~= s@);
    }
    loop
        invariant
            0 <= j <= len,
            len == s@.len(),
            spec_after_last_slash(s@) == spec_after_last_slash(s@.take(j as int)),
        ensures
            0 <= j <= len,
            len == s@.len(),
            spec_after_last_slash(s@) == j,
        decreases j,
    {
        if j == 0 {
            assert(spec_after_last_slash(s@.take(0)) == 0) by {
                assert(s@.take(0) =~= Seq::<char>::empty());
            }
            break ;
        }
        proof {
            assert(s@.take(j as int)[j - 1] == s@[j - 1]);
        }
        if s.get_char(j - 1) == '/' {
            assert(spec_after_last_slash(s@.take(j as int)) == j);
            break ;
        }
        proof {
            assert(s@.take(j as int).drop_last() =~= s@.take(j - 1));
        }
        j = j - 1;
    }
    j
}

} // verus!
