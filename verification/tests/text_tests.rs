use tweet_broadcast::text::{
    after_last_slash, before_query, str_eq, str_lt, strip_normal, u64_to_string, unescape,
};

#[test]
fn str_eq_decides_equality() {
    assert!(str_eq("", ""));
    assert!(str_eq("abc", "abc"));
    assert!(!str_eq("abc", "abd"));
    assert!(!str_eq("abc", "ab"));
    assert!(str_eq("\u{1f600}", "\u{1f600}"));
}

#[test]
fn str_lt_is_lexicographic() {
    assert!(str_lt("100", "150"));
    assert!(str_lt("105", "150"));
    assert!(!str_lt("150", "150"));
    assert!(!str_lt("150", "100"));
    assert!(str_lt("", "a"));
    assert!(!str_lt("a", ""));
    assert!(str_lt("ab", "abc"));
    assert!(str_lt("abc", "abd"));
    // Tweet IDs of equal length order numerically; a longer ID is larger
    // only when the common prefix decides it.
    assert!(str_lt("99", "999"));
}

#[test]
fn decimal_rendering_is_exact() {
    assert_eq!(u64_to_string(0), "0");
    assert_eq!(u64_to_string(7), "7");
    assert_eq!(u64_to_string(10), "10");
    assert_eq!(u64_to_string(1234567890), "1234567890");
    assert_eq!(u64_to_string(u64::MAX), "18446744073709551615");
}

#[test]
fn unescape_restores_entities() {
    assert_eq!(unescape(""), "");
    assert_eq!(unescape("plain text"), "plain text");
    assert_eq!(unescape("&lt;b&gt; &amp; more"), "<b> & more");
    assert_eq!(unescape("&amp;lt;"), "&lt;");
    assert_eq!(unescape("a&ltb"), "a&ltb");
    assert_eq!(unescape("&lt;&gt;&amp;"), "<>&");
}

#[test]
fn before_query_cuts_at_question_mark() {
    assert_eq!(before_query("https://x/y.jpg?name=large"), "https://x/y.jpg");
    assert_eq!(before_query("https://x/y.jpg"), "https://x/y.jpg");
    assert_eq!(before_query("?q"), "");
}

#[test]
fn strip_normal_replaces_size_marker() {
    assert_eq!(strip_normal("photo_normal.jpg"), "photo.jpg");
    assert_eq!(strip_normal("photo.jpg"), "photo.jpg");
    assert_eq!(strip_normal("a_normal.b_normal.c"), "a.b.c");
    assert_eq!(strip_normal("_normal."), ".");
}

#[test]
fn after_last_slash_finds_file_name() {
    assert_eq!(after_last_slash("https://h/a/b.jpg"), 12);
    assert_eq!(after_last_slash("nopath"), 0);
    assert_eq!(after_last_slash("dir/"), 4);
}
