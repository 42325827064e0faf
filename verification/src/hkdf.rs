use crate::algorithm::Algorithm;
use vstd::prelude::*;

verus! {

/// What RFC 5869 HKDF (Extract with the salt, then Expand with the info)
/// outputs for the hash family whose output size is `hash_len` bytes, when
/// asked for exactly `hash_len` bytes of keying material. The result is a
/// deterministic function of the arguments alone.
pub uninterp spec fn hkdf_okm(hash_len: nat, ikm: Seq<u8>, salt: Seq<u8>, info: Seq<u8>) -> Seq<u8>;

/// Relies on `hkdf::Hkdf<sha1::Sha1>`: Extract(salt, ikm) then Expand(info) to
/// 20 bytes. Expansion fails only beyond 255 hash blocks, so never here.
#[verifier::external_body]
fn expand_sha1(ikm: &[u8], salt: &[u8], info: &[u8]) -> (okm: Vec<u8>)
    ensures
        okm@ == hkdf_okm(20, ikm@, salt@, info@),
        okm@.len() == 20,
{
    let hk = hkdf::Hkdf::<sha1::Sha1>::new(Some(salt), ikm);
    let mut okm = vec![0u8; 20];
    hk.expand(info, &mut okm).expect("output length is within 255 hash blocks");
    okm
}

/// Relies on `hkdf::Hkdf<sha2::Sha256>`: Extract(salt, ikm) then Expand(info)
/// to 32 bytes. Expansion fails only beyond 255 hash blocks, so never here.
#[verifier::external_body]
fn expand_sha256(ikm: &[u8], salt: &[u8], info: &[u8]) -> (okm: Vec<u8>)
    ensures
        okm@ == hkdf_okm(32, ikm@, salt@, info@),
        okm@.len() == 32,
{
    let hk = hkdf::Hkdf::<sha2::Sha256>::new(Some(salt), ikm);
    let mut okm = vec![0u8; 32];
    hk.expand(info, &mut okm).expect("output length is within 255 hash blocks");
    okm
}

/// Relies on `hkdf::Hkdf<sha2::Sha384>`: Extract(salt, ikm) then Expand(info)
/// to 48 bytes. Expansion fails only beyond 255 hash blocks, so never here.
#[verifier::external_body]
fn expand_sha384(ikm: &[u8], salt: &[u8], info: &[u8]) -> (okm: Vec<u8>)
    ensures
        okm@ == hkdf_okm(48, ikm@, salt@, info@),
        okm@.len() == 48,
{
    let hk = hkdf::Hkdf::<sha2::Sha384>::new(Some(salt), ikm);
    let mut okm = vec![0u8; 48];
    hk.expand(info, &mut okm).expect("output length is within 255 hash blocks");
    okm
}

/// Relies on `hkdf::Hkdf<sha2::Sha512>`: Extract(salt, ikm) then Expand(info)
/// to 64 bytes. Expansion fails only beyond 255 hash blocks, so never here.
#[verifier::external_body]
fn expand_sha512(ikm: &[u8], salt: &[u8], info: &[u8]) -> (okm: Vec<u8>)
    ensures
        okm@ == hkdf_okm(64, ikm@, salt@, info@),
        okm@.len() == 64,
{
    let hk = hkdf::Hkdf::<sha2::Sha512>::new(Some(salt), ikm);
    let mut okm = vec![0u8; 64];
    hk.expand(info, &mut okm).expect("output length is within 255 hash blocks");
    okm
}

/// Key expansion for one hash family: derives, from a raw secret, a key of
/// exactly the family's output size.
pub struct HkdfWrapper {
    algo: Algorithm,
}

impl HkdfWrapper {
    /// The hash family this expander works with.
    pub closed spec fn spec_algo(&self) -> Algorithm {
        self.algo
    }

    pub fn new(algo: Algorithm) -> (r: Self)
        ensures
            r.spec_algo() == algo,
    {
        Self { algo }
    }

    /// HKDF-Extract(salt, ikm), then HKDF-Expand(prk, info) to the hash
    /// family's output size. Extract concentrates the entropy of a possibly
    /// non-uniform `ikm`; Expand binds the result to `info`, so distinct
    /// contexts under one secret yield independent keys.
    pub fn expand(&self, ikm: &[u8], salt: &[u8], info: &[u8]) -> (okm: Vec<u8>)
        ensures
            okm@ == hkdf_okm(self.spec_algo().spec_output_length(), ikm@, salt@, info@),
            okm@.len() == self.spec_algo().spec_output_length(),
    {
        match self.algo {
            Algorithm::SHA1 => expand_sha1(ikm, salt, info),
            Algorithm::SHA256 => expand_sha256(ikm, salt, info),
            Algorithm::SHA384 => expand_sha384(ikm, salt, info),
            Algorithm::SHA512 => expand_sha512(ikm, salt, info),
        }
    }
}

} // verus!
