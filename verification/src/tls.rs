//! The wire-level trust policy's signature-scheme list. The transport layer
//! accepts every certificate and every scheme listed here without
//! verification, retaining encryption but not authentication; the policy
//! object itself lives with the transport glue, which translates these
//! values one for one.

use vstd::prelude::*;

verus! {

/// A TLS signature scheme the permissive trust policy declares support for.
#[derive(Clone, Copy, Debug, PartialEq, Eq, Structural)]
pub enum SignatureScheme {
    /// RSA PKCS#1 with SHA-1.
    RsaPkcs1Sha1,
    /// Legacy ECDSA with SHA-1.
    EcdsaSha1Legacy,
    /// RSA PKCS#1 with SHA-256.
    RsaPkcs1Sha256,
    /// ECDSA on P-256 with SHA-256.
    EcdsaNistp256Sha256,
    /// RSA PKCS#1 with SHA-384.
    RsaPkcs1Sha384,
    /// ECDSA on P-384 with SHA-384.
    EcdsaNistp384Sha384,
    /// RSA PKCS#1 with SHA-512.
    RsaPkcs1Sha512,
    /// ECDSA on P-521 with SHA-512.
    EcdsaNistp521Sha512,
    /// RSA-PSS with SHA-256.
    RsaPssSha256,
    /// RSA-PSS with SHA-384.
    RsaPssSha384,
    /// RSA-PSS with SHA-512.
    RsaPssSha512,
    /// Ed25519.
    Ed25519,
    /// Ed448.
    Ed448,
}

/// The exact scheme list the permissive trust policy hands to the transport.
pub open spec fn spec_supported_verify_schemes() -> Seq<SignatureScheme> {
    seq![
        SignatureScheme::RsaPkcs1Sha1,
        SignatureScheme::EcdsaSha1Legacy,
        SignatureScheme::RsaPkcs1Sha256,
        SignatureScheme::EcdsaNistp256Sha256,
        SignatureScheme::RsaPkcs1Sha384,
        SignatureScheme::EcdsaNistp384Sha384,
        SignatureScheme::RsaPkcs1Sha512,
        SignatureScheme::EcdsaNistp521Sha512,
        SignatureScheme::RsaPssSha256,
        SignatureScheme::RsaPssSha384,
        SignatureScheme::RsaPssSha512,
        SignatureScheme::Ed25519,
        SignatureScheme::Ed448,
    ]
}

/// The signature schemes the permissive trust policy declares support for,
/// in declaration order.
pub fn supported_verify_schemes() -> (r: Vec<SignatureScheme>)
    ensures
        r@ == spec_supported_verify_schemes(),
{
    let mut v: Vec<SignatureScheme> = Vec::new();
    v.push(SignatureScheme::RsaPkcs1Sha1);
    v.push(SignatureScheme::EcdsaSha1Legacy);
    v.push(SignatureScheme::RsaPkcs1Sha256);
    v.push(SignatureScheme::EcdsaNistp256Sha256);
    v.push(SignatureScheme::RsaPkcs1Sha384);
    v.push(SignatureScheme::EcdsaNistp384Sha384);
    v.push(SignatureScheme::RsaPkcs1Sha512);
    v.push(SignatureScheme::EcdsaNistp521Sha512);
    v.push(SignatureScheme::RsaPssSha256);
    v.push(SignatureScheme::RsaPssSha384);
    v.push(SignatureScheme::RsaPssSha512);
    v.push(SignatureScheme::Ed25519);
    v.push(SignatureScheme::Ed448);
    proof {
        assert(v@ =~= spec_supported_verify_schemes());
    }
    v
}

} // verus!
