use tweet_broadcast::remote::{sign_media_request, u64_to_dec_bytes, SIGNATURE_TTL_MS};

#[test]
fn decimal_bytes_are_ascii_digits() {
    assert_eq!(u64_to_dec_bytes(0), b"0".to_vec());
    assert_eq!(u64_to_dec_bytes(1699999999000), b"1699999999000".to_vec());
}

#[test]
fn signature_expires_thirty_seconds_after_signing() {
    let now = 1_700_000_000_000i64;
    let signed = sign_media_request(b"secret", b"{\"id\":\"42\"}", now);
    assert_eq!(signed.expires_at_ms, now + SIGNATURE_TTL_MS);
    assert_eq!(signed.expires_header, "1700000030000");
}

#[test]
fn signature_matches_hmac_over_expiry_and_body() {
    // Recompute the signature directly with the underlying crates: the
    // signed message is the decimal expiry followed by the body.
    let now = 1_700_000_000_000i64;
    let body = b"{\"id\":\"42\"}";
    let signed = sign_media_request(b"secret", body, now);

    let mut message = signed.expires_header.as_bytes().to_vec();
    message.extend_from_slice(body);
    let key = ring::hmac::Key::new(ring::hmac::HMAC_SHA256, b"secret");
    let tag = ring::hmac::sign(&key, &message);
    let expected = base64::encode(tag.as_ref());
    assert_eq!(signed.signature_b64, expected);
}

#[test]
fn signature_depends_on_the_body() {
    let now = 1_700_000_000_000i64;
    let a = sign_media_request(b"secret", b"{\"id\":\"1\"}", now);
    let b = sign_media_request(b"secret", b"{\"id\":\"2\"}", now);
    assert_ne!(a.signature_b64, b.signature_b64);
    let c = sign_media_request(b"other", b"{\"id\":\"1\"}", now);
    assert_ne!(a.signature_b64, c.signature_b64);
}
