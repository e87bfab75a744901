use tweet_broadcast::endpoint::{
    join_comma, list_endpoint_url, pct_encode, retrieve_bulk_url, retrieve_single_url,
    search_endpoint_url, stream_endpoint_url, timeline_endpoint_url,
};

const ENGINE_PARAMS: &str = "expansions=author_id%2Creferenced_tweets.id%2Creferenced_tweets.id.author_id%2Cattachments.media_keys&tweet.fields=created_at%2Centities%2Cpublic_metrics%2Cpossibly_sensitive&user.fields=profile_image_url%2Cpublic_metrics&media.fields=width%2Cheight%2Curl%2Cpreview_image_url";

const RETRIEVE_PARAMS: &str = "expansions=author_id%2Cattachments.media_keys&tweet.fields=created_at%2Centities%2Cpublic_metrics%2Cpossibly_sensitive&user.fields=profile_image_url%2Cpublic_metrics&media.fields=width%2Cheight%2Curl%2Cpreview_image_url";

#[test]
fn percent_encoding_is_exact() {
    assert_eq!(pct_encode(b"abc-._~XYZ019"), "abc-._~XYZ019");
    assert_eq!(pct_encode(b"a b,c"), "a%20b%2Cc");
    assert_eq!(pct_encode(b"#q=1&x/y"), "%23q%3D1%26x%2Fy");
    assert_eq!(pct_encode("\u{00e9}".as_bytes()), "%C3%A9");
    assert_eq!(pct_encode(b""), "");
}

#[test]
fn comma_join_is_exact() {
    let empty: Vec<String> = Vec::new();
    assert_eq!(join_comma(&empty), "");
    assert_eq!(join_comma(&vec!["1".to_string()]), "1");
    assert_eq!(
        join_comma(&vec!["1".to_string(), "2".to_string(), "3".to_string()]),
        "1,2,3"
    );
}

#[test]
fn single_retrieve_url() {
    assert_eq!(
        retrieve_single_url("42"),
        format!("https://api.twitter.com/2/tweets/42?{}", RETRIEVE_PARAMS)
    );
}

#[test]
fn bulk_retrieve_url_joins_ids() {
    let ids = vec!["1".to_string(), "2".to_string()];
    assert_eq!(
        retrieve_bulk_url(&ids),
        format!("https://api.twitter.com/2/tweets?{}&ids=1%2C2", RETRIEVE_PARAMS)
    );
}

#[test]
fn list_url_carries_page_size_and_token() {
    assert_eq!(
        list_endpoint_url("L1", 5, None),
        format!("https://api.twitter.com/2/lists/L1/tweets?max_results=5&{}", ENGINE_PARAMS)
    );
    assert_eq!(
        list_endpoint_url("L1", 100, Some("tok/1")),
        format!(
            "https://api.twitter.com/2/lists/L1/tweets?max_results=100&{}&pagination_token=tok%2F1",
            ENGINE_PARAMS
        )
    );
}

#[test]
fn timeline_url_carries_since_id() {
    assert_eq!(
        timeline_endpoint_url("U7", 100, Some("99"), Some("t2")),
        format!(
            "https://api.twitter.com/2/users/U7/tweets?max_results=100&{}&since_id=99&pagination_token=t2",
            ENGINE_PARAMS
        )
    );
}

#[test]
fn search_url_encodes_the_term() {
    assert_eq!(
        search_endpoint_url("cats dogs", 20, None, None),
        format!(
            "https://api.twitter.com/2/tweets/search/recent?query=cats%20dogs&max_results=20&{}",
            ENGINE_PARAMS
        )
    );
    assert_eq!(
        search_endpoint_url("x", 100, Some("50"), Some("nt")),
        format!(
            "https://api.twitter.com/2/tweets/search/recent?query=x&max_results=100&{}&since_id=50&next_token=nt",
            ENGINE_PARAMS
        )
    );
}

#[test]
fn stream_url_is_fixed() {
    assert_eq!(
        stream_endpoint_url(),
        format!("https://api.twitter.com/2/tweets/search/stream?{}", ENGINE_PARAMS)
    );
}
