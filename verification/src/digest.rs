use sha2::Digest;
use crate::text::{hex_text, is_lower_hex, lemma_hex_digits, lemma_hex_len, push_hex, push_text};
use vstd::prelude::*;

verus! {

/// The SHA-256 digest of a byte string.
pub uninterp spec fn sha256_of(data: Seq<u8>) -> Seq<u8>;

/// Calls `sha2::Sha256::digest`: the result is the digest named by `sha256_of`
/// and has 32 bytes, the output size of SHA-256.
#[verifier::external_body]
fn sha256(data: &[u8]) -> (d: Vec<u8>)
    ensures
        d@ == sha256_of(data@),
        d@.len() == 32,
{
    sha2::Sha256::digest(data).to_vec()
}

/// `sha256:` followed by the lowercase hexadecimal digest, the form of package
/// and payload hashes.
pub open spec fn tagged_sha256(data: Seq<u8>) -> Seq<char> {
    seq!['s', 'h', 'a', '2', '5', '6', ':'] + hex_text(sha256_of(data))
}

/// `s` is `sha256:` followed by 64 lowercase hexadecimal digits.
pub open spec fn is_tagged_digest(s: Seq<char>) -> bool {
    &&& s.len() == 71
    &&& s.subrange(0, 7) == seq!['s', 'h', 'a', '2', '5', '6', ':']
    &&& is_lower_hex(s.subrange(7, 71))
}

/// A tagged SHA-256 digest is `sha256:` and 64 lowercase hexadecimal digits.
pub proof fn lemma_tagged_digest_form(data: Seq<u8>)
    requires
        sha256_of(data).len() == 32,
    ensures
        is_tagged_digest(tagged_sha256(data)),
{
    let d = sha256_of(data);
    lemma_hex_len(d);
    lemma_hex_digits(d);
    let t = tagged_sha256(data);
    assert(t.subrange(0, 7) =~= seq!['s', 'h', 'a', '2', '5', '6', ':']);
    assert(t.subrange(7, 71) =~= hex_text(d));
}

/// The lowercase hexadecimal SHA-256 digest of `data`: 64 digits.
pub fn sha256_hex(data: &[u8]) -> (s: String)
    ensures
        s@ == hex_text(sha256_of(data@)),
        s@.len() == 64,
        is_lower_hex(s@),
{
    let d = sha256(data);
    let mut out = String::new();
    push_hex(&mut out, d.as_slice());
    assert(out@ =~= hex_text(d@));
    proof {
        lemma_hex_len(d@);
        lemma_hex_digits(d@);
    }
    out
}

/// `sha256:` followed by the lowercase hexadecimal SHA-256 digest of `data`.
pub fn sha256_tag(data: &[u8]) -> (s: String)
    ensures
        s@ == tagged_sha256(data@),
        is_tagged_digest(s@),
{
    let d = sha256(data);
    let mut out = String::new();
    push_text(&mut out, "sha256:");
    proof {
        reveal_strlit("sha256:");
    }
    push_hex(&mut out, d.as_slice());
    assert(out@ =~= tagged_sha256(data@));
    proof {
        lemma_tagged_digest_form(data@);
    }
    out
}

} // verus!
