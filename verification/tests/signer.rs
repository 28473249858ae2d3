//! Tests of the signer bridge's configuration: algorithm parsing, PEM
//! decomposition, reserve sizing, and the failure cases for malformed
//! configurations.

use c2pa_c::alg::C2paSigningAlg;
use c2pa_c::error::Error;
use c2pa_c::signer::C2paSigner;
use c2pa_c::signer::SignerCallback;
use c2pa_c::signer::SignerConfig;

/// A PEM section whose decoded contents are hand-computed: base64
/// `AAECAw==` is the bytes 0, 1, 2, 3.
const SMALL_PEM: &str = "-----BEGIN CERTIFICATE-----\nAAECAw==\n-----END CERTIFICATE-----\n";

#[derive(Clone)]
struct EchoSigner;

impl SignerCallback for EchoSigner {
    fn sign(&self, data: Vec<u8>) -> Result<Vec<u8>, Error> {
        Ok(data)
    }
}

fn small_config() -> SignerConfig {
    SignerConfig {
        alg: "Es256".to_string(),
        certs: SMALL_PEM.as_bytes().to_vec(),
        time_authority_url: Some("http://tsa.example".to_string()),
        use_ocsp: false,
    }
}

#[test]
fn new_signer_has_token_defaults() {
    let s = C2paSigner::new(EchoSigner);
    assert_eq!(s.alg(), C2paSigningAlg::Ps256);
    assert_eq!(s.reserve_size(), 1024);
    assert!(s.certs().unwrap().is_empty());
    assert!(s.time_authority_url().is_none());
    assert!(s.ocsp_val().is_none());
}

#[test]
fn configure_parses_the_pem_chain_into_der() {
    let mut s = C2paSigner::new(EchoSigner);
    s.configure(&small_config()).unwrap();
    // The stored certificates are the decoded DER bytes, not the PEM text.
    assert_eq!(s.certs().unwrap(), vec![vec![0u8, 1, 2, 3]]);
    assert_eq!(s.alg(), C2paSigningAlg::Es256);
    assert_eq!(s.time_authority_url().as_deref(), Some("http://tsa.example"));
    assert!(s.ocsp_val().is_none());
}

#[test]
fn reserve_size_is_chain_length_plus_twenty_thousand() {
    let mut s = C2paSigner::new(EchoSigner);
    let config = small_config();
    s.configure(&config).unwrap();
    assert_eq!(s.reserve_size(), config.certs.len() + 20000);
    assert!(s.reserve_size() >= 20000);
}

#[test]
fn reserve_size_covers_an_ed25519_signature() {
    let mut s = C2paSigner::new(EchoSigner);
    s.configure(&small_config()).unwrap();
    // An Ed25519 signature is 64 bytes; every configured reserve holds it.
    assert!(64 <= s.reserve_size());
}

#[test]
fn unknown_algorithm_is_rejected() {
    let mut s = C2paSigner::new(EchoSigner);
    let mut config = small_config();
    config.alg = "rsa4096".to_string();
    let err = s.configure(&config).unwrap_err();
    assert_eq!(err, Error::Sdk("unknown signing algorithm".to_string()));
    // The signer is untouched.
    assert_eq!(s.alg(), C2paSigningAlg::Ps256);
    assert_eq!(s.reserve_size(), 1024);
}

#[test]
fn empty_certificate_chain_is_rejected() {
    let mut s = C2paSigner::new(EchoSigner);
    let mut config = small_config();
    config.certs = Vec::new();
    let err = s.configure(&config).unwrap_err();
    match err {
        Error::Sdk(m) => assert!(!m.is_empty()),
        other => panic!("expected an engine error, got {:?}", other),
    }
    assert_eq!(s.reserve_size(), 1024);
}

#[test]
fn algorithm_name_case_does_not_matter() {
    for name in ["ed25519", "Ed25519", "ED25519"] {
        let mut s = C2paSigner::new(EchoSigner);
        let mut config = small_config();
        config.alg = name.to_string();
        s.configure(&config).unwrap();
        assert_eq!(s.alg(), C2paSigningAlg::Ed25519);
    }
}

#[test]
fn from_callback_reserves_ten_thousand_beyond_the_chain() {
    let certs = SMALL_PEM.as_bytes().to_vec();
    let s = C2paSigner::from_callback(
        EchoSigner,
        C2paSigningAlg::Ed25519,
        certs.clone(),
        Some("http://tsa.example".to_string()),
    );
    assert_eq!(s.alg(), C2paSigningAlg::Ed25519);
    assert_eq!(s.reserve_size(), 10000 + certs.len());
    assert_eq!(s.certs_pem(), certs);
    assert_eq!(s.certs().unwrap(), vec![vec![0u8, 1, 2, 3]]);
    assert_eq!(s.time_authority_url().as_deref(), Some("http://tsa.example"));
}

#[test]
fn signer_sign_passes_through_the_callback() {
    let s = C2paSigner::new(EchoSigner);
    let sig = s.sign(vec![1, 2, 3]).unwrap();
    assert_eq!(sig, vec![1, 2, 3]);
}

#[derive(Clone)]
struct FailingSigner;

impl SignerCallback for FailingSigner {
    fn sign(&self, _data: Vec<u8>) -> Result<Vec<u8>, Error> {
        Err(Error::Sdk("signature callback failed".to_string()))
    }
}

#[test]
fn signer_sign_wraps_callback_failures() {
    let s = C2paSigner::new(FailingSigner);
    let err = s.sign(vec![1]).unwrap_err();
    assert_eq!(err, Error::Sdk("signature callback failed".to_string()));
}
