//! Cryptographic digests: the closed set of algorithms the hash tool shows,
//! each computed by its crate behind a named result.

use vstd::prelude::*;

verus! {

/// The digest of the input bytes under MD5; what the bytes are is the
/// `md-5` crate's business, determinism and length are stated on the wrapper.
pub uninterp spec fn md5_of(b: Seq<u8>) -> Seq<u8>;

pub uninterp spec fn sha1_of(b: Seq<u8>) -> Seq<u8>;

pub uninterp spec fn sha224_of(b: Seq<u8>) -> Seq<u8>;

pub uninterp spec fn sha256_of(b: Seq<u8>) -> Seq<u8>;

pub uninterp spec fn sha384_of(b: Seq<u8>) -> Seq<u8>;

pub uninterp spec fn sha512_of(b: Seq<u8>) -> Seq<u8>;

pub uninterp spec fn sha512_224_of(b: Seq<u8>) -> Seq<u8>;

pub uninterp spec fn sha512_256_of(b: Seq<u8>) -> Seq<u8>;

pub uninterp spec fn sha3_224_of(b: Seq<u8>) -> Seq<u8>;

pub uninterp spec fn sha3_256_of(b: Seq<u8>) -> Seq<u8>;

pub uninterp spec fn sha3_384_of(b: Seq<u8>) -> Seq<u8>;

pub uninterp spec fn sha3_512_of(b: Seq<u8>) -> Seq<u8>;

/// The closed set of algorithms the hash tool computes.
#[allow(non_camel_case_types)]
#[derive(Clone, Copy, Debug, PartialEq, Eq, Structural)]
pub enum HashAlgo {
    MD5,
    SHA1,
    SHA224,
    SHA256,
    SHA384,
    SHA512,
    SHA512_224,
    SHA512_256,
    SHA3_224,
    SHA3_256,
    SHA3_384,
    SHA3_512,
}

impl HashAlgo {
    /// The documented digest length in bytes.
    pub open spec fn spec_digest_len(self) -> nat {
        match self {
            HashAlgo::MD5 => 16,
            HashAlgo::SHA1 => 20,
            HashAlgo::SHA224 => 28,
            HashAlgo::SHA256 => 32,
            HashAlgo::SHA384 => 48,
            HashAlgo::SHA512 => 64,
            HashAlgo::SHA512_224 => 28,
            HashAlgo::SHA512_256 => 32,
            HashAlgo::SHA3_224 => 28,
            HashAlgo::SHA3_256 => 32,
            HashAlgo::SHA3_384 => 48,
            HashAlgo::SHA3_512 => 64,
        }
    }

    /// The digest of the input bytes under this algorithm.
    pub open spec fn spec_digest(self, b: Seq<u8>) -> Seq<u8> {
        match self {
            HashAlgo::MD5 => md5_of(b),
            HashAlgo::SHA1 => sha1_of(b),
            HashAlgo::SHA224 => sha224_of(b),
            HashAlgo::SHA256 => sha256_of(b),
            HashAlgo::SHA384 => sha384_of(b),
            HashAlgo::SHA512 => sha512_of(b),
            HashAlgo::SHA512_224 => sha512_224_of(b),
            HashAlgo::SHA512_256 => sha512_256_of(b),
            HashAlgo::SHA3_224 => sha3_224_of(b),
            HashAlgo::SHA3_256 => sha3_256_of(b),
            HashAlgo::SHA3_384 => sha3_384_of(b),
            HashAlgo::SHA3_512 => sha3_512_of(b),
        }
    }

    /// The documented digest length in bytes, as a machine value.
    pub fn digest_len(self) -> (r: usize)
        ensures
            r == self.spec_digest_len(),
    {
        match self {
            HashAlgo::MD5 => 16,
            HashAlgo::SHA1 => 20,
            HashAlgo::SHA224 => 28,
            HashAlgo::SHA256 => 32,
            HashAlgo::SHA384 => 48,
            HashAlgo::SHA512 => 64,
            HashAlgo::SHA512_224 => 28,
            HashAlgo::SHA512_256 => 32,
            HashAlgo::SHA3_224 => 28,
            HashAlgo::SHA3_256 => 32,
            HashAlgo::SHA3_384 => 48,
            HashAlgo::SHA3_512 => 64,
        }
    }
}

/// Relies on `md5::Md5` through `digest::Digest::digest`: a 16-byte digest,
/// a function of the input bytes alone.
#[verifier::external_body]
fn md5_digest(input: &[u8]) -> (r: Vec<u8>)
    ensures
        r@ == md5_of(input@),
        r@.len() == 16,
{
    <md5::Md5 as digest::Digest>::digest(input).to_vec()
}

/// Relies on `sha1::Sha1` through `digest::Digest::digest`: a 20-byte
/// digest, a function of the input bytes alone.
#[verifier::external_body]
fn sha1_digest(input: &[u8]) -> (r: Vec<u8>)
    ensures
        r@ == sha1_of(input@),
        r@.len() == 20,
{
    <sha1::Sha1 as digest::Digest>::digest(input).to_vec()
}

/// Relies on `sha2::Sha224` through `digest::Digest::digest`: a 28-byte
/// digest, a function of the input bytes alone.
#[verifier::external_body]
fn sha224_digest(input: &[u8]) -> (r: Vec<u8>)
    ensures
        r@ == sha224_of(input@),
        r@.len() == 28,
{
    <sha2::Sha224 as digest::Digest>::digest(input).to_vec()
}

/// Relies on `sha2::Sha256` through `digest::Digest::digest`: a 32-byte
/// digest, a function of the input bytes alone.
#[verifier::external_body]
fn sha256_digest(input: &[u8]) -> (r: Vec<u8>)
    ensures
        r@ == sha256_of(input@),
        r@.len() == 32,
{
    <sha2::Sha256 as digest::Digest>::digest(input).to_vec()
}

/// Relies on `sha2::Sha384` through `digest::Digest::digest`: a 48-byte
/// digest, a function of the input bytes alone.
#[verifier::external_body]
fn sha384_digest(input: &[u8]) -> (r: Vec<u8>)
    ensures
        r@ == sha384_of(input@),
        r@.len() == 48,
{
    <sha2::Sha384 as digest::Digest>::digest(input).to_vec()
}

/// Relies on `sha2::Sha512` through `digest::Digest::digest`: a 64-byte
/// digest, a function of the input bytes alone.
#[verifier::external_body]
fn sha512_digest(input: &[u8]) -> (r: Vec<u8>)
    ensures
        r@ == sha512_of(input@),
        r@.len() == 64,
{
    <sha2::Sha512 as digest::Digest>::digest(input).to_vec()
}

/// Relies on `sha2::Sha512_224` through `digest::Digest::digest`: a 28-byte
/// digest, a function of the input bytes alone.
#[verifier::external_body]
fn sha512_224_digest(input: &[u8]) -> (r: Vec<u8>)
    ensures
        r@ == sha512_224_of(input@),
        r@.len() == 28,
{
    <sha2::Sha512_224 as digest::Digest>::digest(input).to_vec()
}

/// Relies on `sha2::Sha512_256` through `digest::Digest::digest`: a 32-byte
/// digest, a function of the input bytes alone.
#[verifier::external_body]
fn sha512_256_digest(input: &[u8]) -> (r: Vec<u8>)
    ensures
        r@ == sha512_256_of(input@),
        r@.len() == 32,
{
    <sha2::Sha512_256 as digest::Digest>::digest(input).to_vec()
}

/// Relies on `sha3::Sha3_224` through `digest::Digest::digest`: a 28-byte
/// digest, a function of the input bytes alone.
#[verifier::external_body]
fn sha3_224_digest(input: &[u8]) -> (r: Vec<u8>)
    ensures
        r@ == sha3_224_of(input@),
        r@.len() == 28,
{
    <sha3::Sha3_224 as digest::Digest>::digest(input).to_vec()
}

/// Relies on `sha3::Sha3_256` through `digest::Digest::digest`: a 32-byte
/// digest, a function of the input bytes alone.
#[verifier::external_body]
fn sha3_256_digest(input: &[u8]) -> (r: Vec<u8>)
    ensures
        r@ == sha3_256_of(input@),
        r@.len() == 32,
{
    <sha3::Sha3_256 as digest::Digest>::digest(input).to_vec()
}

/// Relies on `sha3::Sha3_384` through `digest::Digest::digest`: a 48-byte
/// digest, a function of the input bytes alone.
#[verifier::external_body]
fn sha3_384_digest(input: &[u8]) -> (r: Vec<u8>)
    ensures
        r@ == sha3_384_of(input@),
        r@.len() == 48,
{
    <sha3::Sha3_384 as digest::Digest>::digest(input).to_vec()
}

/// Relies on `sha3::Sha3_512` through `digest::Digest::digest`: a 64-byte
/// digest, a function of the input bytes alone.
#[verifier::external_body]
fn sha3_512_digest(input: &[u8]) -> (r: Vec<u8>)
    ensures
        r@ == sha3_512_of(input@),
        r@.len() == 64,
{
    <sha3::Sha3_512 as digest::Digest>::digest(input).to_vec()
}

/// Computes the digest of the input under the chosen algorithm. The result
/// is a function of algorithm and input alone, with the documented length.
pub fn hash(algo: HashAlgo, input: &[u8]) -> (r: Vec<u8>)
    ensures
        r@ == algo.spec_digest(input@),
        r@.len() == algo.spec_digest_len(),
{
    match algo {
        HashAlgo::MD5 => md5_digest(input),
        HashAlgo::SHA1 => sha1_digest(input),
        HashAlgo::SHA224 => sha224_digest(input),
        HashAlgo::SHA256 => sha256_digest(input),
        HashAlgo::SHA384 => sha384_digest(input),
        HashAlgo::SHA512 => sha512_digest(input),
        HashAlgo::SHA512_224 => sha512_224_digest(input),
        HashAlgo::SHA512_256 => sha512_256_digest(input),
        HashAlgo::SHA3_224 => sha3_224_digest(input),
        HashAlgo::SHA3_256 => sha3_256_digest(input),
        HashAlgo::SHA3_384 => sha3_384_digest(input),
        HashAlgo::SHA3_512 => sha3_512_digest(input),
    }
}

} // verus!
