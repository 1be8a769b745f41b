//! The signature of a payload: an HMAC with SHA-1 under a shared secret, written as `sha1=`
//! and the digest in lower-case hexadecimal.

use crate::numerals::{hex_char_at, hex_digit, hex_lower, push_hex};
use crate::text::same_text;
use vstd::prelude::*;

verus! {

/// The error of OpenSSL, opaque to the verifier.
#[verifier::external_type_specification]
#[verifier::external_body]
pub struct ExErrorStack(openssl::error::ErrorStack);

/// The HMAC with SHA-1 of `data` under `key`.
pub uninterp spec fn hmac_sha1(key: Seq<u8>, data: Seq<u8>) -> Seq<u8>;

/// Computes an HMAC with SHA-1.
///
/// Wraps OpenSSL's signer as its documentation computes an HMAC: `PKey::hmac` makes the key,
/// `Signer::new` with `MessageDigest::sha1` the signer, `update` feeds the data and
/// `sign_to_vec` returns the digest. The contract names a digest that was computed
/// `hmac_sha1(key, data)` and promises none. `PKey::hmac` refuses a key longer than
/// `i32::MAX` bytes, so such a key is not admitted.
#[verifier::external_body]
pub(crate) fn compute_hmac_sha1(key: &[u8], data: &[u8]) -> (digest: Result<
    Vec<u8>,
    openssl::error::ErrorStack,
>)
    requires
        key@.len() <= i32::MAX,
    ensures
        digest is Ok ==> digest->Ok_0@ == hmac_sha1(key@, data@),
{
    let pkey = openssl::pkey::PKey::hmac(key)?;
    let mut signer = openssl::sign::Signer::new(openssl::hash::MessageDigest::sha1(), &pkey)?;
    signer.update(data)?;
    signer.sign_to_vec()
}

/// The signature that stands for a digest: `sha1=` and the digest in lower-case hexadecimal.
pub open spec fn expected_signature(digest: Seq<u8>) -> Seq<char> {
    "sha1="@ + hex_lower(digest)
}

/// Whether `header` is the signature of `digest`, character for character.
pub open spec fn signature_matches(digest: Seq<u8>, header: Seq<char>) -> bool {
    header == expected_signature(digest)
}

/// The signature that stands for a digest.
pub fn signature_text(digest: &[u8]) -> (signature: String)
    ensures
        signature@ == expected_signature(digest@),
{
    let mut signature = "sha1=".to_owned();
    push_hex(&mut signature, digest);
    signature
}

/// Decides `signature_matches`.
pub fn check_signature(digest: &[u8], header: &str) -> (valid: bool)
    ensures
        valid == signature_matches(digest@, header@),
{
    same_text(header, signature_text(digest).as_str())
}

/// The signature of a payload under a secret.
///
/// `None` where the digest could not be computed: for a secret longer than `i32::MAX` bytes,
/// or where OpenSSL failed; whether it fails is OpenSSL's to decide on every other secret.
/// Else the signature that `signature_text` gives for the digest.
pub fn sign(secret: &[u8], body: &[u8]) -> (signature: Option<String>)
    ensures
        secret@.len() > i32::MAX ==> signature is None,
        signature is Some ==> signature->0@ == expected_signature(hmac_sha1(secret@, body@)),
{
    if secret.len() > 0x7fff_ffff {
        return None;
    }
    match compute_hmac_sha1(secret, body) {
        Ok(digest) => Some(signature_text(digest.as_slice())),
        Err(_) => None,
    }
}

/// Verifies the signature of a payload.
///
/// `None` where the digest could not be computed: for a secret longer than `i32::MAX` bytes,
/// or where OpenSSL failed; whether it fails is OpenSSL's to decide on every other secret.
/// Else what `check_signature` says of the digest and `header`: whether `header` is the
/// signature of the payload's digest under `secret`.
pub fn verify(secret: &[u8], body: &[u8], header: &str) -> (valid: Option<bool>)
    ensures
        secret@.len() > i32::MAX ==> valid is None,
        valid is Some ==> valid->0 == signature_matches(hmac_sha1(secret@, body@), header@),
{
    if secret.len() > 0x7fff_ffff {
        return None;
    }
    match compute_hmac_sha1(secret, body) {
        Ok(digest) => Some(check_signature(digest.as_slice(), header)),
        Err(_) => None,
    }
}

/// Two different half-bytes have different hexadecimal digits.
pub proof fn lemma_hex_digit_injective(a: int, b: int)
    requires
        0 <= a < 16,
        0 <= b < 16,
        hex_digit(a) == hex_digit(b),
    ensures
        a == b,
{
    assert(hex_digit(a) as u32 == if a < 10 {
        48 + a
    } else {
        87 + a
    });
    assert(hex_digit(b) as u32 == if b < 10 {
        48 + b
    } else {
        87 + b
    });
}

/// Two different digests have different hexadecimal renderings.
pub proof fn lemma_hex_injective(a: Seq<u8>, b: Seq<u8>)
    requires
        hex_lower(a) == hex_lower(b),
    ensures
        a == b,
{
    assert(hex_lower(a).len() == 2 * a.len());
    assert(hex_lower(b).len() == 2 * b.len());
    assert forall|i: int| 0 <= i < a.len() implies a[i] == b[i] by {
        assert(hex_lower(a)[2 * i] == hex_char_at(a, 2 * i));
        assert(hex_lower(b)[2 * i] == hex_char_at(b, 2 * i));
        assert(hex_lower(a)[2 * i + 1] == hex_char_at(a, 2 * i + 1));
        assert(hex_lower(b)[2 * i + 1] == hex_char_at(b, 2 * i + 1));
        lemma_hex_digit_injective(a[i] as int / 16, b[i] as int / 16);
        lemma_hex_digit_injective(a[i] as int % 16, b[i] as int % 16);
    }
    assert(a =~= b);
}

/// The signature made for a digest verifies against that digest.
pub proof fn law_signature_accepted(digest: Seq<u8>)
    ensures
        signature_matches(digest, expected_signature(digest)),
{
}

/// A header that differs from the signature in any place does not verify.
pub proof fn law_altered_header_rejected(digest: Seq<u8>, header: Seq<char>)
    requires
        header != expected_signature(digest),
    ensures
        !signature_matches(digest, header),
{
}

/// A signature verifies against one digest only: against the digest of any payload or
/// secret whose HMAC differs, it is rejected.
pub proof fn law_altered_digest_rejected(digest: Seq<u8>, other: Seq<u8>)
    requires
        other != digest,
    ensures
        !signature_matches(other, expected_signature(digest)),
{
    if signature_matches(other, expected_signature(digest)) {
        let prefix = "sha1="@;
        assert((prefix + hex_lower(digest)).len() == prefix.len() + hex_lower(digest).len());
        assert((prefix + hex_lower(other)).len() == prefix.len() + hex_lower(other).len());
        assert forall|k: int| 0 <= k < hex_lower(digest).len() implies hex_lower(digest)[k]
            == hex_lower(other)[k] by {
            assert((prefix + hex_lower(digest))[prefix.len() + k] == hex_lower(digest)[k]);
            assert((prefix + hex_lower(other))[prefix.len() + k] == hex_lower(other)[k]);
        }
        assert(hex_lower(digest) =~= hex_lower(other));
        lemma_hex_injective(digest, other);
    }
}

/// A payload altered so that its HMAC changes no longer verifies against the signature that
/// was made for the unaltered payload.
pub proof fn law_altered_body_rejected(secret: Seq<u8>, body: Seq<u8>, altered: Seq<u8>)
    requires
        hmac_sha1(secret, altered) != hmac_sha1(secret, body),
    ensures
        !signature_matches(
            hmac_sha1(secret, altered),
            expected_signature(hmac_sha1(secret, body)),
        ),
{
    law_altered_digest_rejected(hmac_sha1(secret, body), hmac_sha1(secret, altered));
}

} // verus!
