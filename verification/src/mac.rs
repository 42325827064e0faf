use vstd::prelude::*;

verus! {

/// What RFC 2104 HMAC over the hash family with output size `hash_len` bytes
/// returns: the tag over the UTF-8 bytes of `msg`, keyed with `key`. The tag
/// is a deterministic function of the arguments alone.
pub uninterp spec fn hmac_tag(hash_len: nat, key: Seq<u8>, msg: Seq<char>) -> Seq<u8>;

/// Relies on `hmac::Hmac<sha1::Sha1>`: HMAC accepts a key of any length and
/// returns a 20-byte tag.
#[verifier::external_body]
fn mac_sha1(key: &[u8], msg: &str) -> (tag: Vec<u8>)
    ensures
        tag@ == hmac_tag(20, key@, msg@),
        tag@.len() == 20,
{
    let mut m = <hmac::Hmac<sha1::Sha1> as hmac::Mac>::new_from_slice(key)
        .expect("HMAC accepts a key of any length");
    hmac::Mac::update(&mut m, msg.as_bytes());
    hmac::Mac::finalize(m).into_bytes().to_vec()
}

/// Relies on `hmac::Hmac<sha2::Sha256>`: HMAC accepts a key of any length and
/// returns a 32-byte tag.
#[verifier::external_body]
fn mac_sha256(key: &[u8], msg: &str) -> (tag: Vec<u8>)
    ensures
        tag@ == hmac_tag(32, key@, msg@),
        tag@.len() == 32,
{
    let mut m = <hmac::Hmac<sha2::Sha256> as hmac::Mac>::new_from_slice(key)
        .expect("HMAC accepts a key of any length");
    hmac::Mac::update(&mut m, msg.as_bytes());
    hmac::Mac::finalize(m).into_bytes().to_vec()
}

/// Relies on `hmac::Hmac<sha2::Sha384>`: HMAC accepts a key of any length and
/// returns a 48-byte tag.
#[verifier::external_body]
fn mac_sha384(key: &[u8], msg: &str) -> (tag: Vec<u8>)
    ensures
        tag@ == hmac_tag(48, key@, msg@),
        tag@.len() == 48,
{
    let mut m = <hmac::Hmac<sha2::Sha384> as hmac::Mac>::new_from_slice(key)
        .expect("HMAC accepts a key of any length");
    hmac::Mac::update(&mut m, msg.as_bytes());
    hmac::Mac::finalize(m).into_bytes().to_vec()
}

/// Relies on `hmac::Hmac<sha2::Sha512>`: HMAC accepts a key of any length and
/// returns a 64-byte tag.
#[verifier::external_body]
fn mac_sha512(key: &[u8], msg: &str) -> (tag: Vec<u8>)
    ensures
        tag@ == hmac_tag(64, key@, msg@),
        tag@.len() == 64,
{
    let mut m = <hmac::Hmac<sha2::Sha512> as hmac::Mac>::new_from_slice(key)
        .expect("HMAC accepts a key of any length");
    hmac::Mac::update(&mut m, msg.as_bytes());
    hmac::Mac::finalize(m).into_bytes().to_vec()
}

/// Computes the HMAC tag of `msg` under `key` for the given hash family.
pub fn compute_tag(algo: crate::algorithm::Algorithm, key: &[u8], msg: &str) -> (tag: Vec<u8>)
    ensures
        tag@ == hmac_tag(algo.spec_output_length(), key@, msg@),
        tag@.len() == algo.spec_output_length(),
{
    match algo {
        crate::algorithm::Algorithm::SHA1 => mac_sha1(key, msg),
        crate::algorithm::Algorithm::SHA256 => mac_sha256(key, msg),
        crate::algorithm::Algorithm::SHA384 => mac_sha384(key, msg),
        crate::algorithm::Algorithm::SHA512 => mac_sha512(key, msg),
    }
}

/// Timing-safe byte equality: every byte is examined with no early exit on a
/// mismatch, accumulating the XOR difference, so the running time does not
/// depend on the position of the first differing byte. (The lengths are
/// compared up front; a signature's length is not secret.)
pub fn ct_eq(a: &[u8], b: &[u8]) -> (r: bool)
    ensures
        r == (a@ == b@),
{
    if a.len() != b.len() {
        return false;
    }
    let n: usize = a.len();
    let mut diff: u8 = 0;
    let mut i: usize = 0;
    proof {
        assert(a@.subrange(0, 0) =~= b@.subrange(0, 0));
    }
    while i < n
        invariant
            n == a@.len(),
            n == b@.len(),
            i <= n,
            (diff == 0) <==> (a@.subrange(0, i as int) == b@.subrange(0, i as int)),
        decreases n - i,
    {
        let x: u8 = a[i];
        let y: u8 = b[i];
        proof {
            assert((diff | (x ^ y)) == 0 <==> (diff == 0 && x == y)) by (bit_vector);
            if diff == 0 && x == y {
                assert(a@.subrange(0, i as int + 1) =~= a@.subrange(0, i as int).push(a@[i as int]));
                assert(b@.subrange(0, i as int + 1) =~= b@.subrange(0, i as int).push(b@[i as int]));
            } else if x != y {
                assert(a@.subrange(0, i as int + 1)[i as int] != b@.subrange(0, i as int + 1)[i as int]);
            } else {
                // diff != 0: the old prefixes differ at some index, which is
                // still a difference of the longer prefixes
                assert(exists|j: int|
                    0 <= j < i && a@.subrange(0, i as int)[j] != b@.subrange(0, i as int)[j]) by {
                    if forall|j: int| 0 <= j < i ==> a@.subrange(0, i as int)[j] == b@.subrange(
                        0,
                        i as int,
                    )[j] {
                        assert(a@.subrange(0, i as int) =~= b@.subrange(0, i as int));
                    }
                }
                let j: int = choose|j: int|
                    0 <= j < i && a@.subrange(0, i as int)[j] != b@.subrange(0, i as int)[j];
                assert(a@.subrange(0, i as int + 1)[j] != b@.subrange(0, i as int + 1)[j]);
            }
        }
        diff = diff | (x ^ y);
        i += 1;
    }
    proof {
        assert(a@.subrange(0, n as int) =~= a@);
        assert(b@.subrange(0, n as int) =~= b@);
    }
    diff == 0
}

} // verus!
