//! Remote media push: requests to the optional remote-cache endpoint are
//! authenticated by an HMAC-SHA256 signature over the expiry timestamp and
//! the request body, with the tag sent base64-encoded; the expiry is a
//! fixed 30 seconds after signing.

use vstd::prelude::*;

use crate::text::{spec_dec, spec_digit, u64_to_string};

verus! {

/// How long a signed request stays valid, milliseconds.
pub const SIGNATURE_TTL_MS: i64 = 30_000;

/// The HMAC-SHA256 tag of a message under a key. The tag is a pure function
/// of key and message; nothing else is assumed of it.
pub uninterp spec fn spec_hmac_sha256(key: Seq<u8>, msg: Seq<u8>) -> Seq<u8>;

/// Relies on ring's `hmac::Key::new` and `hmac::sign` with the
/// `HMAC_SHA256` algorithm: together they compute the HMAC-SHA256 tag of
/// `msg` under `key`, a deterministic function of the two arguments.
#[verifier::external_body]
fn hmac_sha256(key: &[u8], msg: &[u8]) -> (r: Vec<u8>)
    ensures
        r@ == spec_hmac_sha256(key@, msg@),
{
    let key = ring::hmac::Key::new(ring::hmac::HMAC_SHA256, key);
    ring::hmac::sign(&key, msg).as_ref().to_vec()
}

/// The base64 text of a byte string (standard alphabet, padded), a pure
/// function of its input.
pub uninterp spec fn spec_base64(data: Seq<u8>) -> Seq<char>;

/// Relies on base64's `encode`: the standard-alphabet padded base64
/// rendering of the input, a deterministic function of it.
#[verifier::external_body]
fn base64_encode(data: &[u8]) -> (r: String)
    ensures
        r@ == spec_base64(data@),
{
    base64::encode(data)
}

/// The decimal rendering of a nonnegative integer as ASCII bytes, most
/// significant digit first.
pub open spec fn spec_dec_bytes(n: int) -> Seq<u8>
    decreases n,
{
    if n < 10 {
        seq![(48 + n) as u8]
    } else {
        spec_dec_bytes(n / 10) + seq![(48 + n % 10) as u8]
    }
}

/// Renders a number as decimal ASCII bytes.
pub fn u64_to_dec_bytes(n: u64) -> (r: Vec<u8>)
    ensures
        r@ == spec_dec_bytes(n as int),
    decreases n,
{
    if n < 10 {
        let mut v: Vec<u8> = Vec::new();
        v.push(48 + (n as u8));
        proof {
            assert(v@ =~= spec_dec_bytes(n as int));
        }
        v
    } else {
        let mut v = u64_to_dec_bytes(n / 10);
        v.push(48 + ((n % 10) as u8));
        proof {
            assert(v@ =~= spec_dec_bytes(n as int));
        }
        v
    }
}

/// A signed remote-push request: the expiry timestamp for the `x-expires`
/// header and the base64 signature for the `x-signature` header.
#[derive(Debug, Clone)]
pub struct SignedRequest {
    /// Expiry, UTC epoch milliseconds: signing time plus the TTL.
    pub expires_at_ms: i64,
    /// The expiry rendered in decimal, as sent in `x-expires`.
    pub expires_header: String,
    /// `base64(HMAC-SHA256(key, expires_bytes || body))`, as sent in
    /// `x-signature`.
    pub signature_b64: String,
}

/// Signs a remote media push: the signed message is the decimal expiry
/// timestamp followed by the request body, the expiry 30 seconds after
/// `now_ms`.
pub fn sign_media_request(signing_key: &[u8], body: &[u8], now_ms: i64) -> (r: SignedRequest)
    requires
        now_ms >= 0,
        now_ms + SIGNATURE_TTL_MS <= i64::MAX,
    ensures
        r.expires_at_ms == now_ms + SIGNATURE_TTL_MS,
        r.expires_header@ == spec_dec(r.expires_at_ms as int),
        r.signature_b64@ == spec_base64(
            spec_hmac_sha256(signing_key@, spec_dec_bytes(r.expires_at_ms as int) + body@),
        ),
{
    let expires_at_ms = now_ms + SIGNATURE_TTL_MS;
    let mut message = u64_to_dec_bytes(expires_at_ms as u64);
    let mut body_copy: Vec<u8> = Vec::new();
    let mut i: usize = 0;
    let n = body.len();
    while i < n
        invariant
            0 <= i <= n,
            n == body@.len(),
            body_copy@ == body@.take(i as int),
        decreases n - i,
    {
        let b = body[i];
        body_copy.push(b);
        proof {
            assert(body@.take(i as int).push(body@[i as int]) =~= body@.take(i + 1));
        }
        i = i + 1;
    }
    proof {
        assert(body@.take(n as int) =~= body@);
    }
    message.append(&mut body_copy);
    let tag = hmac_sha256(signing_key, message.as_slice());
    let signature_b64 = base64_encode(tag.as_slice());
    let expires_header = u64_to_string(expires_at_ms as u64);
    SignedRequest { expires_at_ms, expires_header, signature_b64 }
}

} // verus!
