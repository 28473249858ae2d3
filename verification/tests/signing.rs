//! End-to-end signing scenarios through the boundary entry points, with
//! the real engine: signing a small JPEG with an Ed25519 key, reading
//! the signed output back, and the remote-manifest failure path.
//!
//! The certificate chain and key below were generated for these tests
//! alone; the JPEG is a minimal one-pixel baseline image.

use c2pa_c::alg::C2paSigningAlg;
use c2pa_c::api;
use c2pa_c::error::Error;
use c2pa_c::error::ErrorChannel;
use c2pa_c::handle::HandleTable;
use c2pa_c::signer::C2paSigner;
use c2pa_c::signer::SignerCallback;
use c2pa_c::stream::MemoryStream;

const CHAIN_PEM: &str = "-----BEGIN CERTIFICATE-----
MIIBoDCCAVKgAwIBAgIUJ4J3usT5fgdS8AgMQk5MhiY5pAowBQYDK2VwMDUxCzAJ
BgNVBAYTAlVTMRIwEAYDVQQKDAlDMlBBIFRlc3QxEjAQBgNVBAMMCVRlc3QgUm9v
dDAgFw0yMDAxMDEwMDAwMDBaGA8yMDUwMDEwMTAwMDAwMFowNTELMAkGA1UEBhMC
VVMxEjAQBgNVBAoMCUMyUEEgVGVzdDESMBAGA1UEAwwJVGVzdCBMZWFmMCowBQYD
K2VwAyEAgD4qe7lQxM/UsXua4ZLMyTEuny9yyuqek1Ok6iCJTVujcjBwMAwGA1Ud
EwEB/wQCMAAwCwYDVR0PBAQDAgeAMBMGA1UdJQQMMAoGCCsGAQUFBwMEMB0GA1Ud
DgQWBBTU6Sk3LfF49zJ5lNcNraDtHljLtTAfBgNVHSMEGDAWgBRpM2i8G9kpb9Ma
WAb+d2yGee9isjAFBgMrZXADQQCWuTYLaeR1978IaJfLGF0PMUA7yPJw87jSLGE6
WeCwY1MPNUbBrArvgR4c1fH6Jj7jfElKBSTwL8G6stNvwCgC
-----END CERTIFICATE-----
-----BEGIN CERTIFICATE-----
MIIBjjCCAUCgAwIBAgIUKakc0TYGapsRFp6sbVrA3u3lL64wBQYDK2VwMDUxCzAJ
BgNVBAYTAlVTMRIwEAYDVQQKDAlDMlBBIFRlc3QxEjAQBgNVBAMMCVRlc3QgUm9v
dDAgFw0yMDAxMDEwMDAwMDBaGA8yMDUwMDEwMTAwMDAwMFowNTELMAkGA1UEBhMC
VVMxEjAQBgNVBAoMCUMyUEEgVGVzdDESMBAGA1UEAwwJVGVzdCBSb290MCowBQYD
K2VwAyEAieRU8iIzT3oKmWjU48rAyLic9H2lLNiRJ67dZIzHhR6jYDBeMB0GA1Ud
DgQWBBRpM2i8G9kpb9MaWAb+d2yGee9isjAfBgNVHSMEGDAWgBRpM2i8G9kpb9Ma
WAb+d2yGee9isjAPBgNVHRMBAf8EBTADAQH/MAsGA1UdDwQEAwIBBjAFBgMrZXAD
QQBFOyfGphyML5B8Fp8x/HN4dZ6UEKFgKOyUrpPSBnDOc1q3n7IRTQnRD5ce76IN
VC9clS0trnu10hvWU1F5IOcC
-----END CERTIFICATE-----
";

/// The raw seed of the test signing key; the leaf certificate above was
/// issued for the matching public key.  The engine's signing helper takes
/// the key in PKCS#8 PEM form, so [`leaf_key_pem`] assembles that form at
/// run time.
const LEAF_KEY_SEED: [u8; 32] = [
    37, 152, 233, 0, 134, 250, 107, 16, 220, 175, 237, 14, 204, 94, 46, 178, 83, 155, 95, 245,
    45, 44, 14, 41, 159, 23, 124, 184, 48, 228, 252, 23,
];

/// The fixed PKCS#8 header that precedes a raw Ed25519 seed.
const PKCS8_ED25519_PREFIX: [u8; 16] = [48, 46, 2, 1, 0, 48, 5, 6, 3, 43, 101, 112, 4, 34, 4, 32];

/// The test signing key in PKCS#8 PEM form.
fn leaf_key_pem() -> String {
    let mut der = PKCS8_ED25519_PREFIX.to_vec();
    der.extend_from_slice(&LEAF_KEY_SEED);
    pem::encode_config(
        &pem::Pem::new("PRIVATE KEY", der),
        pem::EncodeConfig::new().set_line_ending(pem::LineEnding::LF),
    )
}

fn tiny_jpeg() -> Vec<u8> {
    vec![
        255, 216, 255, 224, 0, 16, 74, 70, 73, 70, 0, 1, 1, 0, 0, 1, 0, 1, 0, 0, 255, 219, 0, 67,
        0, 8, 8, 8, 8, 8, 8, 8, 8, 8, 8, 8, 8, 8, 8, 8, 8, 8, 8, 8, 8, 8, 8, 8, 8, 8, 8, 8, 8, 8,
        8, 8, 8, 8, 8, 8, 8, 8, 8, 8, 8, 8, 8, 8, 8, 8, 8, 8, 8, 8, 8, 8, 8, 8, 8, 8, 8, 8, 8, 8,
        8, 8, 8, 8, 8, 255, 192, 0, 11, 8, 0, 1, 0, 1, 1, 1, 17, 0, 255, 196, 0, 31, 0, 0, 1, 5,
        1, 1, 1, 1, 1, 1, 0, 0, 0, 0, 0, 0, 0, 0, 1, 2, 3, 4, 5, 6, 7, 8, 9, 10, 11, 255, 196, 0,
        181, 16, 0, 2, 1, 3, 3, 2, 4, 3, 5, 5, 4, 4, 0, 0, 1, 125, 1, 2, 3, 0, 4, 17, 5, 18, 33,
        49, 65, 6, 19, 81, 97, 7, 34, 113, 20, 50, 129, 145, 161, 8, 35, 66, 177, 193, 21, 82,
        209, 240, 36, 51, 98, 114, 130, 9, 10, 22, 23, 24, 25, 26, 37, 38, 39, 40, 41, 42, 52, 53,
        54, 55, 56, 57, 58, 67, 68, 69, 70, 71, 72, 73, 74, 83, 84, 85, 86, 87, 88, 89, 90, 99,
        100, 101, 102, 103, 104, 105, 106, 115, 116, 117, 118, 119, 120, 121, 122, 131, 132, 133,
        134, 135, 136, 137, 138, 146, 147, 148, 149, 150, 151, 152, 153, 154, 162, 163, 164, 165,
        166, 167, 168, 169, 170, 178, 179, 180, 181, 182, 183, 184, 185, 186, 194, 195, 196, 197,
        198, 199, 200, 201, 202, 210, 211, 212, 213, 214, 215, 216, 217, 218, 225, 226, 227, 228,
        229, 230, 231, 232, 233, 234, 241, 242, 243, 244, 245, 246, 247, 248, 249, 250, 255, 218,
        0, 8, 1, 1, 0, 0, 63, 0, 210, 207, 32, 255, 217,
    ]
}

#[derive(Clone)]
struct Ed25519Signer;

impl SignerCallback for Ed25519Signer {
    fn sign(&self, data: Vec<u8>) -> Result<Vec<u8>, Error> {
        c2pa::CallbackSigner::ed25519_sign(&data, leaf_key_pem().as_bytes())
            .map_err(|e| Error::Sdk(e.to_string()))
    }
}

fn relax_trust_checks() {
    // The test chain is generated locally, so trust-list checks are off.
    c2pa::Settings::from_toml("[verify]\nverify_trust = false\n").unwrap();
}

const MANIFEST_JSON: &str = "{\"claim_generator\":\"test\",\"assertions\":[]}";

/// A minimal definition that also satisfies the engine's rule that the
/// first action of a fresh manifest is a creation.
const CREATED_MANIFEST_JSON: &str = "{\"claim_generator\":\"test\",\"assertions\":[{\"label\":\"c2pa.actions\",\"data\":{\"actions\":[{\"action\":\"c2pa.created\",\"digitalSourceType\":\"http://cv.iptc.org/newscodes/digitalsourcetype/trainedAlgorithmicMedia\"}]}}]}";

#[test]
fn signing_a_jpeg_yields_a_readable_manifest() {
    relax_trust_checks();
    let mut ch = ErrorChannel::new();
    let mut builders: HandleTable<c2pa::Builder> = HandleTable::new();
    let mut signers: HandleTable<C2paSigner<Ed25519Signer>> = HandleTable::new();

    let signer = api::c2pa_signer_create(
        &mut ch,
        &mut signers,
        Ed25519Signer,
        C2paSigningAlg::Ed25519,
        Some(CHAIN_PEM.as_bytes().to_vec()),
        None,
    )
    .unwrap();

    let builder = api::c2pa_builder_from_json(
        &mut ch,
        &mut builders,
        Some(CREATED_MANIFEST_JSON.as_bytes().to_vec()),
    )
    .unwrap();

    let source = MemoryStream::from_bytes(tiny_jpeg());
    let mut dest = MemoryStream::new();
    let (len, manifest) = api::c2pa_builder_sign(
        &mut ch,
        &mut builders,
        &signers,
        builder,
        Some(b"image/jpeg".to_vec()),
        &source,
        &mut dest,
        signer,
    );
    assert!(len > 0, "signing failed: {}", api::c2pa_error(&ch));
    let manifest = manifest.unwrap();
    assert_eq!(manifest.len() as i64, len);

    // Read the signed output back through a fresh stream.
    let signed = MemoryStream::from_bytes(dest.into_bytes());
    let mut readers: HandleTable<c2pa::Reader> = HandleTable::new();
    let reader = api::c2pa_reader_from_stream(
        &mut ch,
        &mut readers,
        Some(b"image/jpeg".to_vec()),
        &signed,
    );
    let reader = match reader {
        Some(r) => r,
        None => panic!("reading the signed output failed: {}", api::c2pa_error(&ch)),
    };
    let json = api::c2pa_reader_json(&mut ch, &readers, reader).unwrap();
    assert!(json.contains("claim_generator"));

    // The engine's own validation reports no failures for the output.
    let mut cursor = std::io::Cursor::new(signed.into_bytes());
    let direct = c2pa::Reader::from_stream("image/jpeg", &mut cursor).unwrap();
    assert_ne!(
        direct.validation_state(),
        c2pa::ValidationState::Invalid,
        "validation results: {:#?}",
        direct.validation_results()
    );
    if let Some(status) = direct.validation_status() {
        for s in status {
            assert!(s.passed(), "validation failure: {:?}", s);
        }
    }

    api::c2pa_reader_free(&mut readers, reader);
    api::c2pa_builder_free(&mut builders, builder);
    api::c2pa_signer_free(&mut signers, signer);
    assert!(!builders.free(builder));
}

#[test]
fn remote_manifest_reads_fail_with_the_exact_url() {
    relax_trust_checks();
    let url = "http://this_does_not_exist/foo.jpg";

    // Sign with the manifest hosted remotely and embedding disabled, as
    // the engine's own builder interface allows.
    let ed_signer = |_context, data: &[u8]| {
        c2pa::CallbackSigner::ed25519_sign(data, leaf_key_pem().as_bytes())
    };
    let signer = c2pa::CallbackSigner::new(ed_signer, c2pa::SigningAlg::Ed25519, CHAIN_PEM);
    let mut builder = c2pa::Builder::from_json(MANIFEST_JSON).unwrap();
    builder.set_remote_url(url);
    builder.set_no_embed(true);
    let mut source = std::io::Cursor::new(tiny_jpeg());
    let mut output = std::io::Cursor::new(Vec::new());
    builder
        .sign(&signer, "image/jpeg", &mut source, &mut output)
        .unwrap();

    // Reading the output through the boundary must fail, and the error
    // must identify the exact remote URL.
    let mut ch = ErrorChannel::new();
    let mut readers: HandleTable<c2pa::Reader> = HandleTable::new();
    let stream = MemoryStream::from_bytes(output.into_inner());
    let reader = api::c2pa_reader_from_stream(
        &mut ch,
        &mut readers,
        Some(b"image/jpeg".to_vec()),
        &stream,
    );
    assert!(reader.is_none());
    let message = api::c2pa_error(&ch);
    assert!(message.contains(url), "error does not name the URL: {}", message);
}

#[test]
fn garbage_bytes_set_an_engine_error() {
    let mut ch = ErrorChannel::new();
    let mut readers: HandleTable<c2pa::Reader> = HandleTable::new();
    let stream = MemoryStream::from_bytes(vec![0, 1, 2, 3]);
    let reader = api::c2pa_reader_from_stream(
        &mut ch,
        &mut readers,
        Some(b"image/jpeg".to_vec()),
        &stream,
    );
    assert!(reader.is_none());
    assert!(!api::c2pa_error(&ch).is_empty());
}

#[test]
fn null_format_is_reported_by_name() {
    let mut ch = ErrorChannel::new();
    let mut readers: HandleTable<c2pa::Reader> = HandleTable::new();
    let stream = MemoryStream::from_bytes(tiny_jpeg());
    let reader = api::c2pa_reader_from_stream(&mut ch, &mut readers, None, &stream);
    assert!(reader.is_none());
    assert_eq!(api::c2pa_error(&ch), "Unexpected NULL parameter format");
}

#[test]
fn invalid_manifest_json_is_an_engine_error() {
    let mut ch = ErrorChannel::new();
    let mut builders: HandleTable<c2pa::Builder> = HandleTable::new();
    let h = api::c2pa_builder_from_json(&mut ch, &mut builders, Some(b"not json".to_vec()));
    assert!(h.is_none());
    assert!(!api::c2pa_error(&ch).is_empty());
}

#[test]
fn non_utf8_manifest_json_is_reported_by_name() {
    let mut ch = ErrorChannel::new();
    let mut builders: HandleTable<c2pa::Builder> = HandleTable::new();
    let h = api::c2pa_builder_from_json(&mut ch, &mut builders, Some(vec![0xff, 0xfe]));
    assert!(h.is_none());
    assert_eq!(api::c2pa_error(&ch), "Invalid UTF-8 in parameter manifest_json");
}

#[test]
fn dead_builder_handle_is_rejected_not_dereferenced() {
    let mut ch = ErrorChannel::new();
    let mut builders: HandleTable<c2pa::Builder> = HandleTable::new();
    let h = api::c2pa_builder_from_json(
        &mut ch,
        &mut builders,
        Some(MANIFEST_JSON.as_bytes().to_vec()),
    )
    .unwrap();
    api::c2pa_builder_free(&mut builders, h);
    let stream = MemoryStream::from_bytes(vec![1, 2, 3]);
    let r = api::c2pa_builder_add_resource(
        &mut ch,
        &mut builders,
        h,
        Some(b"thumbnail".to_vec()),
        &stream,
    );
    assert_eq!(r, -1);
    assert_eq!(api::c2pa_error(&ch), "Unexpected NULL parameter builder_ptr");
}

#[test]
fn configured_signer_creation_rejects_empty_chain() {
    let mut ch = ErrorChannel::new();
    let mut signers: HandleTable<C2paSigner<Ed25519Signer>> = HandleTable::new();
    let h = api::c2pa_create_signer(
        &mut ch,
        &mut signers,
        Ed25519Signer,
        Some(b"ed25519".to_vec()),
        Some(Vec::new()),
        None,
        false,
    );
    assert!(h.is_none());
    assert!(!api::c2pa_error(&ch).is_empty());
}

#[test]
fn configured_signer_creation_accepts_the_chain() {
    let mut ch = ErrorChannel::new();
    let mut signers: HandleTable<C2paSigner<Ed25519Signer>> = HandleTable::new();
    let h = api::c2pa_create_signer(
        &mut ch,
        &mut signers,
        Ed25519Signer,
        Some(b"Ed25519".to_vec()),
        Some(CHAIN_PEM.as_bytes().to_vec()),
        None,
        false,
    )
    .unwrap();
    let s = signers.get(h).unwrap();
    assert_eq!(s.alg(), C2paSigningAlg::Ed25519);
    assert_eq!(s.reserve_size(), CHAIN_PEM.len() + 20000);
    assert_eq!(s.certs().unwrap().len(), 2);
}

#[test]
fn adding_an_ingredient_keeps_the_builder_usable() {
    relax_trust_checks();
    let mut ch = ErrorChannel::new();
    let mut builders: HandleTable<c2pa::Builder> = HandleTable::new();
    let h = api::c2pa_builder_from_json(
        &mut ch,
        &mut builders,
        Some(MANIFEST_JSON.as_bytes().to_vec()),
    )
    .unwrap();
    let source = MemoryStream::from_bytes(tiny_jpeg());
    let r = api::c2pa_builder_add_ingredient(
        &mut ch,
        &mut builders,
        h,
        Some(b"{\"title\":\"parent\"}".to_vec()),
        Some(b"image/jpeg".to_vec()),
        &source,
    );
    assert_eq!(r, 0, "add_ingredient failed: {}", api::c2pa_error(&ch));
    // The handle is still live: a second mutation also succeeds.
    let r2 = api::c2pa_builder_add_resource(
        &mut ch,
        &mut builders,
        h,
        Some(b"resource_1".to_vec()),
        &MemoryStream::from_bytes(vec![1, 2, 3]),
    );
    assert_eq!(r2, 0, "add_resource failed: {}", api::c2pa_error(&ch));
}

#[test]
fn unknown_resource_uri_returns_the_failure_sentinel() {
    relax_trust_checks();
    let mut ch = ErrorChannel::new();
    let mut readers: HandleTable<c2pa::Reader> = HandleTable::new();

    // Make a real reader first, from a signed asset.
    let ed_signer = |_context, data: &[u8]| {
        c2pa::CallbackSigner::ed25519_sign(data, leaf_key_pem().as_bytes())
    };
    let signer = c2pa::CallbackSigner::new(ed_signer, c2pa::SigningAlg::Ed25519, CHAIN_PEM);
    let mut builder = c2pa::Builder::from_json(CREATED_MANIFEST_JSON).unwrap();
    let mut source = std::io::Cursor::new(tiny_jpeg());
    let mut output = std::io::Cursor::new(Vec::new());
    builder
        .sign(&signer, "image/jpeg", &mut source, &mut output)
        .unwrap();
    let reader = api::c2pa_reader_from_stream(
        &mut ch,
        &mut readers,
        Some(b"image/jpeg".to_vec()),
        &MemoryStream::from_bytes(output.into_inner()),
    )
    .unwrap();

    let mut out = MemoryStream::new();
    let n = api::c2pa_reader_resource_to_stream(
        &mut ch,
        &readers,
        reader,
        Some(b"no_such_resource".to_vec()),
        &mut out,
    );
    assert_eq!(n, -1);
    assert!(!api::c2pa_error(&ch).is_empty());

    let n2 = api::c2pa_reader_resource_to_stream(&mut ch, &readers, reader, None, &mut out);
    assert_eq!(n2, -1);
    assert_eq!(api::c2pa_error(&ch), "Unexpected NULL parameter uri");
}

#[test]
fn dead_signer_handle_is_rejected_by_sign() {
    let mut ch = ErrorChannel::new();
    let mut builders: HandleTable<c2pa::Builder> = HandleTable::new();
    let signers: HandleTable<C2paSigner<Ed25519Signer>> = HandleTable::new();
    let builder = api::c2pa_builder_from_json(
        &mut ch,
        &mut builders,
        Some(MANIFEST_JSON.as_bytes().to_vec()),
    )
    .unwrap();
    let source = MemoryStream::from_bytes(tiny_jpeg());
    let mut dest = MemoryStream::new();
    let (len, manifest) = api::c2pa_builder_sign(
        &mut ch,
        &mut builders,
        &signers,
        builder,
        Some(b"image/jpeg".to_vec()),
        &source,
        &mut dest,
        0,
    );
    assert_eq!(len, -1);
    assert!(manifest.is_none());
    assert_eq!(api::c2pa_error(&ch), "Unexpected NULL parameter signer");
}

#[test]
fn archive_round_trip_restores_the_builder() {
    let mut ch = ErrorChannel::new();
    let mut builders: HandleTable<c2pa::Builder> = HandleTable::new();
    let h = api::c2pa_builder_from_json(
        &mut ch,
        &mut builders,
        Some(MANIFEST_JSON.as_bytes().to_vec()),
    )
    .unwrap();
    let mut archive = MemoryStream::new();
    let r = api::c2pa_builder_to_archive(&mut ch, &builders, h, &mut archive);
    assert_eq!(r, 0, "to_archive failed: {}", api::c2pa_error(&ch));
    let bytes = archive.into_bytes();
    assert!(!bytes.is_empty());

    let restored = api::c2pa_builder_from_archive(
        &mut ch,
        &mut builders,
        &MemoryStream::from_bytes(bytes),
    );
    assert!(restored.is_some(), "from_archive failed: {}", api::c2pa_error(&ch));
}
