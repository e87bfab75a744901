//! Provider endpoint URLs: each request URL is assembled verbatim — path,
//! fixed expansion/field parameters, and percent-encoded query values.

use vstd::prelude::*;

use vstd::utf8::encode_utf8;

use crate::text::{spec_dec, string_push, u64_to_string};

verus! {

/// A byte a query value keeps as itself: RFC 3986 unreserved.
pub open spec fn spec_is_unreserved(b: u8) -> bool {
    (48 <= b <= 57) || (65 <= b <= 90) || (97 <= b <= 122) || b == 45 || b == 46 || b == 95 || b
        == 126
}

/// The uppercase hex digit for `d`.
pub open spec fn spec_hex_upper(d: int) -> char {
    if d == 0 {
        '0'
    } else if d == 1 {
        '1'
    } else if d == 2 {
        '2'
    } else if d == 3 {
        '3'
    } else if d == 4 {
        '4'
    } else if d == 5 {
        '5'
    } else if d == 6 {
        '6'
    } else if d == 7 {
        '7'
    } else if d == 8 {
        '8'
    } else if d == 9 {
        '9'
    } else if d == 10 {
        'A'
    } else if d == 11 {
        'B'
    } else if d == 12 {
        'C'
    } else if d == 13 {
        'D'
    } else if d == 14 {
        'E'
    } else {
        'F'
    }
}

/// Percent-encoding of a byte string: unreserved bytes stay, every other
/// byte becomes `%XX` with uppercase hex.
pub open spec fn spec_pct_encode(s: Seq<u8>) -> Seq<char>
    decreases s.len(),
{
    if s.len() == 0 {
        Seq::empty()
    } else {
        (if spec_is_unreserved(s[0]) {
            seq![s[0] as char]
        } else {
            seq!['%', spec_hex_upper(s[0] as int / 16), spec_hex_upper(s[0] as int % 16)]
        }) + spec_pct_encode(s.drop_first())
    }
}

/// The percent-encoding of a query value given as text.
pub open spec fn spec_pct_str(s: Seq<char>) -> Seq<char> {
    spec_pct_encode(encode_utf8(s))
}

fn hex_upper(d: u8) -> (r: char)
    requires
        d < 16,
    ensures
        r == spec_hex_upper(d as int),
{
    match d {
        0 => '0',
        1 => '1',
        2 => '2',
        3 => '3',
        4 => '4',
        5 => '5',
        6 => '6',
        7 => '7',
        8 => '8',
        9 => '9',
        10 => 'A',
        11 => 'B',
        12 => 'C',
        13 => 'D',
        14 => 'E',
        _ => 'F',
    }
}

/// Percent-encodes a byte string for use as a query value.
pub fn pct_encode(data: &[u8]) -> (r: String)
    ensures
        r@ == spec_pct_encode(data@),
{
    let n = data.len();
    let mut out = String::new();
    let mut i: usize = 0;
    proof {
        assert(data@.skip(0) =~= data@);
    }
    while i < n
        invariant
            0 <= i <= n,
            n == data@.len(),
            spec_pct_encode(data@) == out@ + spec_pct_encode(data@.skip(i as int)),
        decreases n - i,
    {
        let b = data[i];
        proof {
            assert(data@.skip(i as int)[0] == data@[i as int]);
            assert(data@.skip(i as int).drop_first() =~= data@.skip(i + 1));
        }
        if (48 <= b && b <= 57) || (65 <= b && b <= 90) || (97 <= b && b <= 122) || b == 45 || b
            == 46 || b == 95 || b == 126 {
            string_push(&mut out, b as char);
        } else {
            string_push(&mut out, '%');
            string_push(&mut out, hex_upper(b / 16));
            string_push(&mut out, hex_upper(b % 16));
        }
        i = i + 1;
    }
    proof {
        assert(data@.skip(n as int) =~= Seq::<u8>::empty());
        assert(out@ =~= out@ + Seq::<char>::empty());
    }
    out
}

/// One query pair appended to a URL under construction: the (fixed,
/// unreserved) name verbatim, the value percent-encoded.
pub fn append_pair(s: &mut String, name: &str, value: &str)
    ensures
        final(s)@ == old(s)@ + name@ + "="@ + spec_pct_str(value@),
{
    s.append(name);
    s.append("=");
    let encoded = pct_encode(value.as_bytes());
    s.append(encoded.as_str());
}

/// The expansion and field parameters every ingest-engine request carries.
pub open spec fn spec_engine_params() -> Seq<char> {
    "expansions"@ + "="@ + spec_pct_str(
        "author_id,referenced_tweets.id,referenced_tweets.id.author_id,attachments.media_keys"@,
    ) + "&"@ + "tweet.fields"@ + "="@ + spec_pct_str(
        "created_at,entities,public_metrics,possibly_sensitive"@,
    ) + "&"@ + "user.fields"@ + "="@ + spec_pct_str("profile_image_url,public_metrics"@) + "&"@
        + "media.fields"@ + "="@ + spec_pct_str("width,height,url,preview_image_url"@)
}

/// The expansion and field parameters of a bulk or single tweet lookup
/// (no referenced-tweet expansion).
pub open spec fn spec_retrieve_params() -> Seq<char> {
    "expansions"@ + "="@ + spec_pct_str("author_id,attachments.media_keys"@) + "&"@
        + "tweet.fields"@ + "="@ + spec_pct_str(
        "created_at,entities,public_metrics,possibly_sensitive"@,
    ) + "&"@ + "user.fields"@ + "="@ + spec_pct_str("profile_image_url,public_metrics"@) + "&"@
        + "media.fields"@ + "="@ + spec_pct_str("width,height,url,preview_image_url"@)
}

fn append_engine_params(s: &mut String)
    ensures
        final(s)@ == old(s)@ + spec_engine_params(),
{
    append_pair(
        s,
        "expansions",
        "author_id,referenced_tweets.id,referenced_tweets.id.author_id,attachments.media_keys",
    );
    s.append("&");
    append_pair(s, "tweet.fields", "created_at,entities,public_metrics,possibly_sensitive");
    s.append("&");
    append_pair(s, "user.fields", "profile_image_url,public_metrics");
    s.append("&");
    append_pair(s, "media.fields", "width,height,url,preview_image_url");
    proof {
        assert(final(s)@ =~= old(s)@ + spec_engine_params());
    }
}

fn append_retrieve_params(s: &mut String)
    ensures
        final(s)@ == old(s)@ + spec_retrieve_params(),
{
    append_pair(s, "expansions", "author_id,attachments.media_keys");
    s.append("&");
    append_pair(s, "tweet.fields", "created_at,entities,public_metrics,possibly_sensitive");
    s.append("&");
    append_pair(s, "user.fields", "profile_image_url,public_metrics");
    s.append("&");
    append_pair(s, "media.fields", "width,height,url,preview_image_url");
    proof {
        assert(final(s)@ =~= old(s)@ + spec_retrieve_params());
    }
}

/// The URL of a single-tweet lookup (distinct response envelope).
pub fn retrieve_single_url(id: &str) -> (r: String)
    ensures
        r@ == "https://api.twitter.com/2/tweets/"@ + id@ + "?"@ + spec_retrieve_params(),
{
    let mut s = String::new();
    s.append("https://api.twitter.com/2/tweets/");
    s.append(id);
    s.append("?");
    append_retrieve_params(&mut s);
    proof {
        assert(s@ =~= "https://api.twitter.com/2/tweets/"@ + id@ + "?"@ + spec_retrieve_params());
    }
    s
}

/// The IDs of one retrieve chunk joined with commas.
pub open spec fn spec_join_comma(ids: Seq<Seq<char>>) -> Seq<char>
    decreases ids.len(),
{
    if ids.len() == 0 {
        Seq::empty()
    } else if ids.len() == 1 {
        ids[0]
    } else {
        ids[0] + ","@ + spec_join_comma(ids.drop_first())
    }
}

/// Joins the IDs of one retrieve chunk with commas.
pub fn join_comma(ids: &Vec<String>) -> (r: String)
    ensures
        r@ == spec_join_comma(ids@.map_values(|s: String| s@)),
{
    let n = ids.len();
    let mut out = String::new();
    let mut i: usize = 0;
    while i < n
        invariant
            0 <= i <= n,
            n == ids@.len(),
            i == 0 ==> out@ == Seq::<char>::empty(),
            (0 < i && i < n) ==> spec_join_comma(ids@.map_values(|s: String| s@)) == out@ + ","@
                + spec_join_comma(ids@.map_values(|s: String| s@).skip(i as int)),
            i == n ==> out@ == spec_join_comma(ids@.map_values(|s: String| s@)),
        decreases n - i,
    {
        let ghost idv = ids@.map_values(|s: String| s@);
        proof {
            assert(idv.skip(i as int)[0] == idv[i as int]);
            assert(idv.skip(i as int).drop_first() =~= idv.skip(i + 1));
            assert(idv.skip(0) =~= idv);
        }
        if i > 0 {
            out.append(",");
        }
        out.append(ids[i].as_str());
        proof {
            if i + 1 < n {
                assert(spec_join_comma(idv) =~= out@ + ","@ + spec_join_comma(idv.skip(i + 1)));
            } else {
                assert(spec_join_comma(idv.skip(i as int)) =~= idv[i as int]);
                assert(out@ =~= spec_join_comma(idv));
            }
        }
        i = i + 1;
    }
    proof {
        if n == 0 {
            assert(out@ =~= spec_join_comma(ids@.map_values(|s: String| s@)));
        }
    }
    out
}

/// The URL of one bulk-retrieve chunk: the chunk's IDs joined with commas
/// in the `ids` query value.
pub fn retrieve_bulk_url(ids: &Vec<String>) -> (r: String)
    ensures
        r@ == "https://api.twitter.com/2/tweets?"@ + spec_retrieve_params() + "&"@ + "ids"@ + "="@
            + spec_pct_str(spec_join_comma(ids@.map_values(|s: String| s@))),
{
    let mut s = String::new();
    s.append("https://api.twitter.com/2/tweets?");
    append_retrieve_params(&mut s);
    s.append("&");
    let joined = join_comma(ids);
    append_pair(&mut s, "ids", joined.as_str());
    proof {
        assert(s@ =~= "https://api.twitter.com/2/tweets?"@ + spec_retrieve_params() + "&"@ + "ids"@
            + "="@ + spec_pct_str(spec_join_comma(ids@.map_values(|st: String| st@))));
    }
    s
}

/// The query suffix of an optional percent-encoded pair.
pub open spec fn spec_opt_pair(name: Seq<char>, value: Option<Seq<char>>) -> Seq<char> {
    match value {
        Some(t) => "&"@ + name + "="@ + spec_pct_str(t),
        None => Seq::<char>::empty(),
    }
}

/// The character views of an optional string slice.
pub open spec fn opt_view(o: Option<&str>) -> Option<Seq<char>> {
    match o {
        Some(s) => Some(s@),
        None => None,
    }
}

fn append_opt_pair(s: &mut String, name: &str, value: Option<&str>)
    ensures
        final(s)@ == old(s)@ + spec_opt_pair(name@, opt_view(value)),
{
    match value {
        Some(t) => {
            s.append("&");
            append_pair(s, name, t);
            proof {
                assert(final(s)@ =~= old(s)@ + spec_opt_pair(name@, opt_view(value)));
            }
        },
        None => {
            proof {
                assert(final(s)@ =~= old(s)@ + spec_opt_pair(name@, opt_view(value)));
            }
        },
    }
}

/// The URL of one list-tweets page.
pub fn list_endpoint_url(id: &str, max_results: u32, pagination_token: Option<&str>) -> (r: String)
    ensures
        r@ == "https://api.twitter.com/2/lists/"@ + id@ + "/tweets?max_results="@ + spec_dec(
            max_results as int,
        ) + "&"@ + spec_engine_params() + spec_opt_pair(
            "pagination_token"@,
            opt_view(pagination_token),
        ),
{
    let mut s = String::new();
    s.append("https://api.twitter.com/2/lists/");
    s.append(id);
    s.append("/tweets?max_results=");
    let dec = u64_to_string(max_results as u64);
    s.append(dec.as_str());
    s.append("&");
    append_engine_params(&mut s);
    append_opt_pair(&mut s, "pagination_token", pagination_token);
    proof {
        assert(s@ =~= "https://api.twitter.com/2/lists/"@ + id@ + "/tweets?max_results="@
            + spec_dec(max_results as int) + "&"@ + spec_engine_params() + spec_opt_pair(
            "pagination_token"@,
            opt_view(pagination_token),
        ));
    }
    s
}

/// The URL of one user-timeline page.
pub fn timeline_endpoint_url(
    id: &str,
    max_results: u32,
    since_id: Option<&str>,
    pagination_token: Option<&str>,
) -> (r: String)
    ensures
        r@ == "https://api.twitter.com/2/users/"@ + id@ + "/tweets?max_results="@ + spec_dec(
            max_results as int,
        ) + "&"@ + spec_engine_params() + spec_opt_pair("since_id"@, opt_view(since_id))
            + spec_opt_pair("pagination_token"@, opt_view(pagination_token)),
{
    let mut s = String::new();
    s.append("https://api.twitter.com/2/users/");
    s.append(id);
    s.append("/tweets?max_results=");
    let dec = u64_to_string(max_results as u64);
    s.append(dec.as_str());
    s.append("&");
    append_engine_params(&mut s);
    append_opt_pair(&mut s, "since_id", since_id);
    append_opt_pair(&mut s, "pagination_token", pagination_token);
    proof {
        assert(s@ =~= "https://api.twitter.com/2/users/"@ + id@ + "/tweets?max_results="@
            + spec_dec(max_results as int) + "&"@ + spec_engine_params() + spec_opt_pair(
            "since_id"@,
            opt_view(since_id),
        ) + spec_opt_pair("pagination_token"@, opt_view(pagination_token)));
    }
    s
}

/// The URL of one recent-search page.
pub fn search_endpoint_url(
    term: &str,
    max_results: u32,
    since_id: Option<&str>,
    next_token: Option<&str>,
) -> (r: String)
    ensures
        r@ == "https://api.twitter.com/2/tweets/search/recent?"@ + "query"@ + "="@ + spec_pct_str(
            term@,
        ) + "&max_results="@ + spec_dec(max_results as int) + "&"@ + spec_engine_params()
            + spec_opt_pair("since_id"@, opt_view(since_id)) + spec_opt_pair(
            "next_token"@,
            opt_view(next_token),
        ),
{
    let mut s = String::new();
    s.append("https://api.twitter.com/2/tweets/search/recent?");
    append_pair(&mut s, "query", term);
    s.append("&max_results=");
    let dec = u64_to_string(max_results as u64);
    s.append(dec.as_str());
    s.append("&");
    append_engine_params(&mut s);
    append_opt_pair(&mut s, "since_id", since_id);
    append_opt_pair(&mut s, "next_token", next_token);
    proof {
        assert(s@ =~= "https://api.twitter.com/2/tweets/search/recent?"@ + "query"@ + "="@
            + spec_pct_str(term@) + "&max_results="@ + spec_dec(max_results as int) + "&"@
            + spec_engine_params() + spec_opt_pair("since_id"@, opt_view(since_id))
            + spec_opt_pair("next_token"@, opt_view(next_token)));
    }
    s
}

/// The URL of the persistent filtered stream.
pub fn stream_endpoint_url() -> (r: String)
    ensures
        r@ == "https://api.twitter.com/2/tweets/search/stream?"@ + spec_engine_params(),
{
    let mut s = String::new();
    s.append("https://api.twitter.com/2/tweets/search/stream?");
    append_engine_params(&mut s);
    proof {
        assert(s@ =~= "https://api.twitter.com/2/tweets/search/stream?"@ + spec_engine_params());
    }
    s
}

} // verus!
