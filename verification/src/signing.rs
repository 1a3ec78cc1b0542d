//! Signature verification for inbound webhook deliveries: an HMAC-SHA256
//! digest of the raw request body, base64-encoded, must match the digest
//! carried in the request's signature header.

use vstd::prelude::*;

verus! {

/// The HMAC-SHA256 message authentication code of `msg` under key `key`,
/// as computed by the `hmac` crate; left uninterpreted, since it is a pure
/// function of its arguments whose definition this library does not restate.
pub uninterp spec fn hmac_sha256_of(key: Seq<u8>, msg: Seq<u8>) -> Seq<u8>;

/// The standard base64 encoding (with padding) of `bytes`, as computed by the
/// `base64` crate; left uninterpreted, since it is a pure function of its
/// argument whose definition this library does not restate.
pub uninterp spec fn base64_of(bytes: Seq<u8>) -> Seq<u8>;

/// Relies on `hmac::Hmac<sha2::Sha256>` (through the `hmac::Mac` trait):
/// computes the HMAC-SHA256 tag of `msg` under `key`. `new_from_slice`
/// accepts keys of any length for HMAC, so the `unwrap` cannot panic.
#[verifier::external_body]
fn hmac_sha256(key: &[u8], msg: &[u8]) -> (r: Vec<u8>)
    ensures
        r@ == hmac_sha256_of(key@, msg@),
{
    let mut mac = <hmac::Hmac<sha2::Sha256> as hmac::KeyInit>::new_from_slice(key).unwrap();
    hmac::Mac::update(&mut mac, msg);
    hmac::Mac::finalize(mac).into_bytes().to_vec()
}

/// Relies on `base64::Engine::encode` with the standard alphabet and padding:
/// encodes `bytes` as base64 ASCII text.
#[verifier::external_body]
fn base64_encode(bytes: &[u8]) -> (r: Vec<u8>)
    ensures
        r@ == base64_of(bytes@),
{
    base64::Engine::encode(&base64::engine::general_purpose::STANDARD, bytes).into_bytes()
}

/// The digest a well-behaved sender attaches to `msg` when it shares `key`.
pub open spec fn spec_signature(key: Seq<u8>, msg: Seq<u8>) -> Seq<u8> {
    base64_of(hmac_sha256_of(key, msg))
}

/// Whether `digest` is the correct signature of `msg` under `key`.
pub open spec fn spec_verify(key: Seq<u8>, msg: Seq<u8>, digest: Seq<u8>) -> bool {
    spec_signature(key, msg) == digest
}

/// The base64-encoded HMAC-SHA256 digest of `msg` under `secret`: the value
/// the platform sends in the signature header of a genuine delivery.
pub fn hmac_sha256_base64(secret: &[u8], msg: &[u8]) -> (r: Vec<u8>)
    ensures
        r@ == spec_signature(secret@, msg@),
{
    let mac = hmac_sha256(secret, msg);
    base64_encode(mac.as_slice())
}

/// Compares two byte strings without an early exit on the first mismatch, so
/// that the comparison's timing does not reveal how long a matching prefix a
/// forged digest had.
fn constant_time_eq(a: &[u8], b: &[u8]) -> (r: bool)
    ensures
        r == (a@ == b@),
{
    if a.len() != b.len() {
        return false;
    }
    let mut diff: u8 = 0;
    let mut i: usize = 0;
    proof {
        assert(a@.subrange(0, 0) =~= b@.subrange(0, 0));
    }
    while i < a.len()
        invariant
            0 <= i <= a@.len(),
            a@.len() == b@.len(),
            diff == 0 <==> a@.subrange(0, i as int) == b@.subrange(0, i as int),
        decreases a@.len() - i,
    {
        let x = a[i];
        let y = b[i];
        let ghost prev = diff;
        diff = diff | (x ^ y);
        proof {
            assert((prev | (x ^ y)) == 0 <==> (prev == 0 && x == y)) by (bit_vector);
            if diff == 0 {
                assert(a@.subrange(0, i + 1) =~= b@.subrange(0, i + 1));
            } else if a@.subrange(0, i + 1) == b@.subrange(0, i + 1) {
                if prev != 0 {
                    assert(a@.subrange(0, i as int) =~= a@.subrange(0, i + 1).subrange(0, i as int));
                    assert(b@.subrange(0, i as int) =~= b@.subrange(0, i + 1).subrange(0, i as int));
                } else {
                    assert(a@.subrange(0, i + 1)[i as int] == b@.subrange(0, i + 1)[i as int]);
                }
                assert(false);
            }
        }
        i = i + 1;
    }
    proof {
        assert(a@.subrange(0, a@.len() as int) =~= a@);
        assert(b@.subrange(0, b@.len() as int) =~= b@);
    }
    diff == 0
}

/// Checks an inbound delivery's signature: recomputes the base64-encoded
/// HMAC-SHA256 digest of `msg` under `secret` and compares it with the
/// received `digest`. A mismatch is an expected outcome, reported as `false`.
pub fn verify(secret: &[u8], msg: &[u8], digest: &[u8]) -> (r: bool)
    ensures
        r == spec_verify(secret@, msg@, digest@),
{
    let expected = hmac_sha256_base64(secret, msg);
    constant_time_eq(expected.as_slice(), digest)
}

/// A digest produced from a secret and a message always verifies against the
/// same secret and message.
pub proof fn lemma_verify_accepts_own_signature(key: Seq<u8>, msg: Seq<u8>)
    ensures
        spec_verify(key, msg, spec_signature(key, msg)),
{
}

} // verus!
