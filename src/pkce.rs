use base64::engine::general_purpose::URL_SAFE_NO_PAD;
use base64::Engine;
use rand::rngs::OsRng;
use rand::RngCore;
use sha2::{Digest, Sha256};
use vstd::prelude::*;
use vstd::utf8::encode_utf8;

verus! {

/// URL-safe base64 text of `bytes`, without padding.
pub uninterp spec fn urlsafe_nopad(bytes: Seq<u8>) -> Seq<char>;

/// SHA-256 digest of `bytes`.
pub uninterp spec fn sha256(bytes: Seq<u8>) -> Seq<u8>;

/// Length of the unpadded base64 text of `n` bytes.
pub open spec fn encoded_len(n: nat) -> nat {
    (4 * n + 2) / 3
}

/// A character of the URL-safe base64 alphabet.
pub open spec fn is_urlsafe_char(c: char) -> bool {
    ('A' <= c && c <= 'Z') || ('a' <= c && c <= 'z') || ('0' <= c && c <= '9') || c == '-' || c == '_'
}

pub open spec fn all_urlsafe(s: Seq<char>) -> bool {
    forall|i: int| 0 <= i < s.len() ==> is_urlsafe_char(#[trigger] s[i])
}

/// Whether `s` is the unpadded URL-safe encoding of some `n` bytes.
pub open spec fn encodes_bytes(s: Seq<char>, n: nat) -> bool {
    exists|b: Seq<u8>| b.len() == n && s == urlsafe_nopad(b)
}

/// The S256 challenge that belongs to a verifier.
pub open spec fn challenge_of(verifier: Seq<char>) -> Seq<char> {
    urlsafe_nopad(sha256(encode_utf8(verifier)))
}

/// Relies on base64's `URL_SAFE_NO_PAD.encode`: the URL-safe alphabet
/// (`A-Z a-z 0-9 - _`), no `=` padding, so `ceil(4n/3)` characters.
#[verifier::external_body]
fn encode_urlsafe(bytes: &[u8]) -> (r: String)
    ensures
        r@ == urlsafe_nopad(bytes@),
        r@.len() == encoded_len(bytes@.len()),
        all_urlsafe(r@),
{
    URL_SAFE_NO_PAD.encode(bytes)
}

/// Relies on sha2's `Sha256::digest`: a 32-byte digest of the input.
#[verifier::external_body]
fn sha256_digest(bytes: &[u8]) -> (r: Vec<u8>)
    ensures
        r@ == sha256(bytes@),
        r@.len() == 32,
{
    Sha256::digest(bytes).to_vec()
}

/// Relies on rand's `OsRng::fill_bytes`: overwrites every byte of the buffer
/// with bytes from the operating system's secure source (it panics only when
/// that source fails, which leaves no secure way to go on).
#[verifier::external_body]
fn fill_random(buf: &mut Vec<u8>)
    ensures
        final(buf)@.len() == old(buf)@.len(),
{
    OsRng.fill_bytes(buf.as_mut_slice())
}

/// `size` secure random bytes, encoded URL-safe without padding.
pub fn random_urlsafe(size: usize) -> (r: String)
    ensures
        encodes_bytes(r@, size as nat),
        r@.len() == encoded_len(size as nat),
        all_urlsafe(r@),
{
    let mut buffer: Vec<u8> = Vec::new();
    let mut i: usize = 0;
    while i < size
        invariant
            i <= size,
            buffer@.len() == i,
        decreases size - i,
    {
        buffer.push(0u8);
        i = i + 1;
    }
    fill_random(&mut buffer);
    let r = encode_urlsafe(buffer.as_slice());
    assert(buffer@.len() == size && r@ == urlsafe_nopad(buffer@));
    r
}

/// A fresh anti-forgery state value: 32 random bytes, 43 characters.
pub fn generate_state() -> (r: String)
    ensures
        encodes_bytes(r@, 32),
        r@.len() == 43,
        all_urlsafe(r@),
{
    random_urlsafe(32)
}

/// A fresh PKCE code verifier: 64 random bytes, 86 characters.
pub fn generate_verifier() -> (r: String)
    ensures
        encodes_bytes(r@, 64),
        r@.len() == 86,
        all_urlsafe(r@),
{
    random_urlsafe(64)
}

/// The S256 challenge of `verifier`: URL-safe unpadded base64 of the SHA-256
/// digest of its UTF-8 bytes.
pub fn pkce_challenge(verifier: &str) -> (r: String)
    ensures
        r@ == challenge_of(verifier@),
        r@.len() == 43,
        all_urlsafe(r@),
{
    let digest = sha256_digest(verifier.as_bytes());
    encode_urlsafe(digest.as_slice())
}

/// The challenge is a function of the verifier alone: equal verifiers give
/// equal challenges.
pub proof fn lemma_challenge_deterministic(v1: Seq<char>, v2: Seq<char>)
    requires
        v1 == v2,
    ensures
        challenge_of(v1) == challenge_of(v2),
{
}

/// A generated verifier never equals its challenge: the verifier has 86
/// characters and every challenge has 43.
pub proof fn lemma_verifier_is_not_challenge(verifier: Seq<char>, challenge: Seq<char>)
    requires
        verifier.len() == encoded_len(64),
        challenge.len() == encoded_len(32),
    ensures
        verifier != challenge,
{
}

} // verus!
