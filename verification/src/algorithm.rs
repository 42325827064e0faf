use vstd::prelude::*;

verus! {

/// Hash family used for keyed-hash signing and key expansion.
///
/// SHA1 is retained for legacy interoperability only: HMAC security does not
/// rest on collision resistance, but a stronger family should be preferred.
#[derive(Clone, Copy, Debug)]
pub enum Algorithm {
    SHA1,
    SHA256,
    SHA384,
    SHA512,
}

impl Algorithm {
    /// Output size of the hash family, in bytes.
    pub open spec fn spec_output_length(&self) -> nat {
        match *self {
            Algorithm::SHA1 => 20,
            Algorithm::SHA256 => 32,
            Algorithm::SHA384 => 48,
            Algorithm::SHA512 => 64,
        }
    }

    /// Output size of the hash family, in bytes.
    pub fn output_length(&self) -> (n: usize)
        ensures
            n == self.spec_output_length(),
    {
        match *self {
            Algorithm::SHA1 => 20,
            Algorithm::SHA256 => 32,
            Algorithm::SHA384 => 48,
            Algorithm::SHA512 => 64,
        }
    }
}

impl Default for Algorithm {
    /// SHA256 is the default: a balance of security margin and performance.
    fn default() -> (r: Self)
        ensures
            r == Algorithm::SHA256,
    {
        Algorithm::SHA256
    }
}

} // verus!
