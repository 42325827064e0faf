pub mod algorithm;
pub mod codec;
pub mod errors;
pub mod hkdf;
pub mod mac;

pub use crate::algorithm::Algorithm;
pub use crate::codec::Encoder;
pub use crate::errors::Error;

use crate::codec::b64_decode;
use crate::codec::b64_encode;
use crate::hkdf::hkdf_okm;
use crate::hkdf::HkdfWrapper;
use crate::mac::compute_tag;
use crate::mac::ct_eq;
use crate::mac::hmac_tag;
use vstd::prelude::*;
use vstd::string::StrSliceExecFns;
use vstd::string::StringExecFns;

verus! {

/// Delimiter between the encoded payload and the encoded signature of a token.
pub const DELIM: char = '.';

/// Key material for key expansion: the main secret, a salt, and
/// application-specific context info. The secret must be non-empty for a
/// meaningful signer; salt and info may be empty.
#[derive(Clone, Debug)]
pub struct KeyInfo {
    /// Main secret key.
    pub key: Vec<u8>,
    /// Salt for the key expansion (may be empty).
    pub salt: Vec<u8>,
    /// Application-specific info (may be empty).
    pub info: Vec<u8>,
}

impl Default for KeyInfo {
    fn default() -> (r: Self)
        ensures
            r.key@.len() == 0,
            r.salt@.len() == 0,
            r.info@.len() == 0,
    {
        Self { key: Vec::new(), salt: Vec::new(), info: Vec::new() }
    }
}

/// `d` is the position of the one and only `.` in `t`.
pub open spec fn is_split_at(t: Seq<char>, d: int) -> bool {
    &&& 0 <= d < t.len()
    &&& t[d] == '.'
    &&& forall|i: int| 0 <= i < t.len() && i != d ==> t[i] != '.'
}

/// `t` splits into exactly two `.`-delimited segments.
pub open spec fn splits_in_two(t: Seq<char>) -> bool {
    exists|d: int| is_split_at(t, d)
}

/// The position of the delimiter, for a token that splits in two.
pub open spec fn split_pos(t: Seq<char>) -> int {
    choose|d: int| is_split_at(t, d)
}

/// The encoded-payload segment: everything before the delimiter.
pub open spec fn seg_payload(t: Seq<char>) -> Seq<char> {
    t.subrange(0, split_pos(t))
}

/// The encoded-signature segment: everything after the delimiter.
pub open spec fn seg_signature(t: Seq<char>) -> Seq<char> {
    t.subrange(split_pos(t) + 1, t.len() as int)
}

/// The delimiter position of a token that splits in two is unique.
pub proof fn lemma_split_unique(t: Seq<char>, d: int)
    requires
        is_split_at(t, d),
    ensures
        split_pos(t) == d,
{
    assert(splits_in_two(t));
    let c: int = split_pos(t);
    assert(is_split_at(t, c));
    if c != d {
        assert(t[c] == '.');
        assert(false);
    }
}

/// The signer: holds the derived key, the hash family, and the codec.
/// Immutable after construction, so one instance may serve arbitrarily many
/// concurrent sign and verify calls. Deliberately not `Debug`: the derived
/// key must never be printed or logged.
#[derive(Clone)]
pub struct HmacSigner {
    expanded_key: Vec<u8>,
    algo: Algorithm,
    encoder: Encoder,
}

impl HmacSigner {
    /// The derived signing key. Ghost only: the bytes never leave the instance.
    pub closed spec fn spec_key(&self) -> Seq<u8> {
        self.expanded_key@
    }

    /// The configured hash family.
    pub closed spec fn spec_algo(&self) -> Algorithm {
        self.algo
    }

    /// The configured codec variant.
    pub closed spec fn spec_encoder(&self) -> Encoder {
        self.encoder
    }

    /// Alphabet of the configured codec.
    pub open spec fn url_safe(&self) -> bool {
        self.spec_encoder().spec_url_safe()
    }

    /// Padding of the configured codec.
    pub open spec fn padded(&self) -> bool {
        self.spec_encoder().spec_padded()
    }

    /// Output size of the configured hash family, in bytes.
    pub open spec fn hash_len(&self) -> nat {
        self.spec_algo().spec_output_length()
    }

    /// The keyed hash this signer computes over a message.
    pub open spec fn tag_of(&self, msg: Seq<char>) -> Seq<u8> {
        hmac_tag(self.hash_len(), self.spec_key(), msg)
    }

    /// The token's signature segment decodes, under this signer's codec, to
    /// exactly `sig`.
    pub open spec fn decodes_signature(&self, t: Seq<char>, sig: Seq<u8>) -> bool {
        b64_decode(self.url_safe(), self.padded(), seg_signature(t)) == Some(sig)
    }

    /// Well-formedness: the derived key is exactly as long as the hash output.
    pub open spec fn wf(&self) -> bool {
        self.spec_key().len() == self.hash_len()
    }

    /// The token this signer produces for the serialized payload `data`:
    /// encoded payload, `.`, encoded signature over the encoded payload.
    pub open spec fn spec_sign(&self, data: Seq<u8>) -> Seq<char> {
        let ep = b64_encode(self.url_safe(), self.padded(), data);
        let es = b64_encode(self.url_safe(), self.padded(), self.tag_of(ep));
        ep + seq!['.'] + es
    }

    /// The verification state machine, strictly ordered, each state terminal
    /// on failure: split on the delimiter (else `InvalidInput` echoing the
    /// token), reject an empty payload segment (`InvalidToken`), decode the
    /// signature (`InvalidSignature`), compare the recomputed keyed hash over
    /// the raw payload segment (`InvalidToken` on mismatch, the same kind as
    /// for an empty body, so the two are indistinguishable), and only then
    /// decode the payload segment (`InvalidPayload` defensively).
    pub open spec fn unsign_post(&self, t: Seq<char>, r: Result<Vec<u8>, Error>) -> bool {
        &&& (!splits_in_two(t) ==> (r matches Err(Error::InvalidInput(orig)) && orig@ == t))
        &&& (splits_in_two(t) ==> {
            let ep = seg_payload(t);
            let es = seg_signature(t);
            let sig = b64_decode(self.url_safe(), self.padded(), es);
            let body = b64_decode(self.url_safe(), self.padded(), ep);
            &&& (ep.len() == 0 ==> r == Err::<Vec<u8>, Error>(Error::InvalidToken))
            &&& (ep.len() > 0 && sig is None ==> r == Err::<Vec<u8>, Error>(
                Error::InvalidSignature,
            ))
            &&& (ep.len() > 0 && (sig matches Some(s) && s != self.tag_of(ep)) ==> r == Err::<
                Vec<u8>,
                Error,
            >(Error::InvalidToken))
            &&& (ep.len() > 0 && sig == Some(self.tag_of(ep)) && body is None ==> r == Err::<
                Vec<u8>,
                Error,
            >(Error::InvalidPayload))
            &&& (ep.len() > 0 && sig == Some(self.tag_of(ep)) && body is Some ==> (r matches Ok(v)
                && v@ == body->Some_0))
        })
    }

    /// Derives the signing key once and caches it for the signer's lifetime.
    /// The secret must be non-empty: a signer with a degenerate key must never
    /// exist, and unverified callers have to check before calling.
    pub fn new(key_info: KeyInfo, algo: Algorithm, encoder: Encoder) -> (s: Self)
        requires
            key_info.key@.len() > 0,
        ensures
            s.spec_algo() == algo,
            s.spec_encoder() == encoder,
            s.spec_key() == hkdf_okm(
                algo.spec_output_length(),
                key_info.key@,
                key_info.salt@,
                key_info.info@,
            ),
            s.wf(),
    {
        let expanded_key = HkdfWrapper::new(algo).expand(
            key_info.key.as_slice(),
            key_info.salt.as_slice(),
            key_info.info.as_slice(),
        );
        Self { expanded_key, algo, encoder }
    }

    /// The keyed hash of `payload` under the configured hash family and the
    /// derived key.
    fn sign_payload(&self, payload: &str) -> (tag: Vec<u8>)
        ensures
            tag@ == self.tag_of(payload@),
            tag@.len() == self.hash_len(),
    {
        compute_tag(self.algo, self.expanded_key.as_slice(), payload)
    }

    /// Whether `signature` is this signer's keyed hash of `payload`. The
    /// comparison is timing-safe: see `ct_eq`.
    fn verify(&self, payload: &str, signature: &[u8]) -> (ok: bool)
        ensures
            ok == (signature@ == self.tag_of(payload@)),
    {
        let tag = self.sign_payload(payload);
        ct_eq(signature, tag.as_slice())
    }

    /// Signs the serialized payload bytes and returns the token.
    ///
    /// Total: no error path. The token is a function of the configuration and
    /// the payload alone, so signing is deterministic. For a non-empty payload
    /// the round trip is closed: any outcome of `unsign` on the returned token
    /// is `Ok` with exactly the signed bytes.
    pub fn sign(&self, data: &[u8]) -> (token: String)
        ensures
            token@ == self.spec_sign(data@),
            data@.len() > 0 ==> forall|r: Result<Vec<u8>, Error>|
                #[trigger] self.unsign_post(token@, r) ==> (r matches Ok(v) && v@ == data@),
    {
        let ep: String = self.encoder.encode(data);
        let signature = self.sign_payload(ep.as_str());
        let es: String = self.encoder.encode(signature.as_slice());
        let ghost gep: Seq<char> = ep@;
        let ghost ges: Seq<char> = es@;
        let mut token = ep;
        token.append(".");
        token.append(es.as_str());
        proof {
            reveal_strlit(".");
            assert("."@ =~= seq!['.']);
            assert(token@ == gep + seq!['.'] + ges);
            assert(token@ == self.spec_sign(data@));
            if data@.len() > 0 {
                let t = token@;
                let d: int = gep.len() as int;
                assert forall|i: int| 0 <= i < t.len() && i != d implies t[i] != '.' by {
                    if i < d {
                        assert(t[i] == gep[i]);
                    } else {
                        assert(t[i] == ges[i - d - 1]);
                    }
                }
                assert(is_split_at(t, d));
                lemma_split_unique(t, d);
                assert(seg_payload(t) =~= gep);
                assert(seg_signature(t) =~= ges);
            }
        }
        token
    }

    /// Verifies a token and returns the decoded payload bytes.
    ///
    /// The outcome is exactly the verification state machine `unsign_post`.
    /// Moreover verification is sound: whenever it accepts, the token is
    /// bit-for-bit the one this signer produces for the returned bytes — so
    /// any tampering with a signed token, and any token this signer never
    /// produced, is rejected.
    pub fn unsign(&self, token: &str) -> (r: Result<Vec<u8>, Error>)
        ensures
            self.unsign_post(token@, r),
            r matches Ok(v) ==> v@.len() > 0 && token@ == self.spec_sign(v@),
            (forall|d: Seq<u8>| token@ != #[trigger] self.spec_sign(d)) ==> r is Err,
    {
        let ghost t = token@;
        let n: usize = token.unicode_len();
        let mut i: usize = 0;
        let mut dots: usize = 0;
        let mut dpos: usize = 0;
        while i < n
            invariant
                n == t.len(),
                t == token@,
                i <= n,
                dots <= i,
                dots == 0 ==> forall|j: int| 0 <= j < i ==> t[j] != '.',
                dots == 1 ==> dpos < i && t[dpos as int] == '.' && forall|j: int|
                    0 <= j < i && j != dpos ==> t[j] != '.',
                dots >= 2 ==> exists|j1: int, j2: int|
                    0 <= j1 < j2 < i && t[j1] == '.' && t[j2] == '.',
            decreases n - i,
        {
            let c: char = token.get_char(i);
            if c == DELIM {
                if dots == 0 {
                    dpos = i;
                } else if dots == 1 {
                    proof {
                        assert((dpos as int) < (i as int) && t[dpos as int] == '.' && t[i as int]
                            == '.');
                    }
                }
                dots = dots + 1;
            }
            i = i + 1;
        }
        if dots != 1 {
            proof {
                if dots == 0 {
                    if splits_in_two(t) {
                        let d: int = split_pos(t);
                        assert(is_split_at(t, d));
                        assert(false);
                    }
                } else {
                    let (j1, j2): (int, int) = choose|j1: int, j2: int|
                        0 <= j1 < j2 < n && t[j1] == '.' && t[j2] == '.';
                    if splits_in_two(t) {
                        let d: int = split_pos(t);
                        assert(is_split_at(t, d));
                        assert(t[j1] == '.' && t[j2] == '.');
                        assert(false);
                    }
                }
            }
            return Err(Error::InvalidInput(token.to_owned()));
        }
        proof {
            assert(is_split_at(t, dpos as int));
            lemma_split_unique(t, dpos as int);
        }
        let ep: &str = token.substring_char(0, dpos);
        let es: &str = token.substring_char(dpos + 1, n);
        proof {
            assert(ep@ =~= seg_payload(t));
            assert(es@ =~= seg_signature(t));
        }
        if dpos == 0 {
            return Err(Error::InvalidToken);
        }
        let signature = match self.encoder.decode(es) {
            Some(v) => v,
            None => {
                return Err(Error::InvalidSignature);
            },
        };
        if !self.verify(ep, signature.as_slice()) {
            return Err(Error::InvalidToken);
        }
        match self.encoder.decode(ep) {
            Some(body) => {
                proof {
                    let d: int = dpos as int;
                    assert(t =~= seg_payload(t) + seq!['.'] + seg_signature(t));
                    assert(ep@ == b64_encode(self.url_safe(), self.padded(), body@));
                    assert(es@ == b64_encode(self.url_safe(), self.padded(), signature@));
                    assert(signature@ == self.tag_of(ep@));
                    assert(t == self.spec_sign(body@));
                }
                Ok(body)
            },
            None => Err(Error::InvalidPayload),
        }
    }
}

/// The tail of verification, after the cryptographic checks: `parse_ok` says
/// whether structural deserialization of the decoded payload succeeded, `exp`
/// is the expiration instant the payload reports (if any), and `now` is the
/// current time, both as seconds. A failed parse is `InvalidPayload`; an
/// expiration strictly earlier than `now` is `TokenExpired`; an expiration
/// exactly equal to `now` is still valid.
pub fn validate_claims(parse_ok: bool, exp: Option<i64>, now: i64) -> (r: Result<(), Error>)
    ensures
        !parse_ok ==> r == Err::<(), Error>(Error::InvalidPayload),
        parse_ok && (exp matches Some(e) && e < now) ==> r == Err::<(), Error>(Error::TokenExpired),
        parse_ok && (exp matches Some(e) ==> e >= now) ==> r == Ok::<(), Error>(()),
{
    if !parse_ok {
        return Err(Error::InvalidPayload);
    }
    match exp {
        Some(e) => if e < now {
            Err(Error::TokenExpired)
        } else {
            Ok(())
        },
        None => Ok(()),
    }
}

/// Determinism of signing: the token depends on the configuration (derived
/// key, hash family, codec) and the payload alone, so two signers with equal
/// configurations produce byte-identical tokens for equal payloads.
pub proof fn lemma_sign_deterministic(s1: HmacSigner, s2: HmacSigner, data: Seq<u8>)
    requires
        s1.spec_key() == s2.spec_key(),
        s1.spec_algo() == s2.spec_algo(),
        s1.spec_encoder() == s2.spec_encoder(),
    ensures
        s1.spec_sign(data) == s2.spec_sign(data),
{
}

/// Cross-key rejection, short of a keyed-hash collision: when a verifier's
/// own keyed hash of the payload segment disagrees with the token's embedded
/// signature — as holds for a token signed under a different key unless the
/// two keys' hashes collide on this message — the verifier answers
/// `InvalidToken`, the same kind as for an empty body.
pub proof fn lemma_cross_key_rejected(
    b: HmacSigner,
    t: Seq<char>,
    sig: Seq<u8>,
    r: Result<Vec<u8>, Error>,
)
    requires
        splits_in_two(t),
        seg_payload(t).len() > 0,
        b.decodes_signature(t, sig),
        sig != b.tag_of(seg_payload(t)),
        b.unsign_post(t, r),
    ensures
        r == Err::<Vec<u8>, Error>(Error::InvalidToken),
{
}

} // verus!
