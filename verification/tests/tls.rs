use pagepool::supported_verify_schemes;
use pagepool::SignatureScheme;

#[test]
fn scheme_list_is_complete_and_ordered() {
    let schemes = supported_verify_schemes();
    assert_eq!(
        schemes,
        vec![
            SignatureScheme::RsaPkcs1Sha1,
            SignatureScheme::EcdsaSha1Legacy,
            SignatureScheme::RsaPkcs1Sha256,
            SignatureScheme::EcdsaNistp256Sha256,
            SignatureScheme::RsaPkcs1Sha384,
            SignatureScheme::EcdsaNistp384Sha384,
            SignatureScheme::RsaPkcs1Sha512,
            SignatureScheme::EcdsaNistp521Sha512,
            SignatureScheme::RsaPssSha256,
            SignatureScheme::RsaPssSha384,
            SignatureScheme::RsaPssSha512,
            SignatureScheme::Ed25519,
            SignatureScheme::Ed448,
        ]
    );
}

#[test]
fn scheme_list_has_thirteen_entries() {
    assert_eq!(supported_verify_schemes().len(), 13);
}
