//! The trusted boundary: every call out of the verified library.
//!
//! Each item here either declares an outside type opaquely or wraps one
//! outside call, stating only what that call's source or documentation
//! shows.  Everything else in the library is verified against these
//! contracts.

use vstd::prelude::*;

use crate::alg::C2paSigningAlg;
use crate::signer::SignerCallback;

verus! {

use vstd::utf8::valid_utf8;
use vstd::utf8::decode_utf8;

/// The engine's reader object: parses an asset's embedded manifest data
/// into a queryable form.  Opaque to the library.
#[verifier::external_type_specification]
#[verifier::external_body]
pub struct ExReader(c2pa::Reader);

/// The engine's builder object: assembles a manifest definition and signs
/// it into an asset.  Opaque to the library.
#[verifier::external_type_specification]
#[verifier::external_body]
pub struct ExBuilder(c2pa::Builder);

/// The engine's signing-algorithm identifier.  Opaque to the library,
/// which keeps its own [`C2paSigningAlg`] and converts at the boundary.
#[verifier::external_type_specification]
#[verifier::external_body]
pub struct ExSigningAlg(c2pa::SigningAlg);

/// Relies on `String::from_utf8`: it succeeds exactly on valid UTF-8 and
/// returns the string of the decoded characters.
#[verifier::external_body]
pub(crate) fn string_from_utf8(bytes: Vec<u8>) -> (r: Option<String>)
    ensures
        r is Some <==> valid_utf8(bytes@),
        r is Some ==> r.unwrap()@ == decode_utf8(bytes@),
{
    String::from_utf8(bytes).ok()
}

/// What `pem::parse_many` extracts from a byte string: the DER contents
/// of each PEM section, in order, or nothing where the input does not
/// parse.
pub uninterp spec fn pem_contents(input: Seq<u8>) -> Option<Seq<Seq<u8>>>;

/// Relies on `pem::parse_many`: parses zero or more concatenated PEM
/// sections and yields each section's decoded contents; the result is a
/// function of the input bytes alone.
#[verifier::external_body]
pub(crate) fn parse_pem_ders(input: &[u8]) -> (r: Result<Vec<Vec<u8>>, String>)
    ensures
        r is Ok <==> pem_contents(input@) is Some,
        r is Ok ==> r.unwrap().deep_view() == pem_contents(input@).unwrap(),
{
    match pem::parse_many(input) {
        Ok(pems) => Ok(pems.into_iter().map(|p| p.into_contents()).collect()),
        Err(e) => Err(e.to_string()),
    }
}

/// Relies on the engine's `NAME` and `VERSION` constants, which identify
/// the engine build this library was compiled against.
#[verifier::external_body]
pub(crate) fn sdk_name_version() -> (r: String)
    ensures
        r@ == "c2pa-rs/0.90.22"@,
{
    format!("{}/{}", c2pa::NAME, c2pa::VERSION)
}

/// Relies on the conversion being one variant to one variant; the engine
/// value is opaque, so nothing further is stated.
#[verifier::external_body]
pub(crate) fn alg_to_engine(alg: C2paSigningAlg) -> c2pa::SigningAlg {
    match alg {
        C2paSigningAlg::Es256 => c2pa::SigningAlg::Es256,
        C2paSigningAlg::Es384 => c2pa::SigningAlg::Es384,
        C2paSigningAlg::Es512 => c2pa::SigningAlg::Es512,
        C2paSigningAlg::Ps256 => c2pa::SigningAlg::Ps256,
        C2paSigningAlg::Ps384 => c2pa::SigningAlg::Ps384,
        C2paSigningAlg::Ps512 => c2pa::SigningAlg::Ps512,
        C2paSigningAlg::Ed25519 => c2pa::SigningAlg::Ed25519,
    }
}

/// Relies on `c2pa::Reader::from_stream`: parses the manifest data of the
/// asset bytes; the error is returned as its display text.  Whether it
/// succeeds depends on the engine, so nothing is promised of the outcome.
#[verifier::external_body]
pub(crate) fn reader_from_stream(format: &str, data: Vec<u8>) -> (r: Result<c2pa::Reader, String>)
{
    c2pa::Reader::from_stream(format, std::io::Cursor::new(data)).map_err(|e| e.to_string())
}

/// Relies on `c2pa::Reader::json`: renders the manifest store as JSON.
#[verifier::external_body]
pub(crate) fn reader_json(reader: &c2pa::Reader) -> String {
    reader.json()
}

/// Relies on `c2pa::Reader::resource_to_stream`: writes the resource at
/// `uri` into the given stream; the bytes written are handed back.
#[verifier::external_body]
pub(crate) fn reader_resource(reader: &c2pa::Reader, uri: &str) -> (r: Result<Vec<u8>, String>) {
    let mut out = std::io::Cursor::new(Vec::new());
    match reader.resource_to_stream(uri, &mut out) {
        Ok(_) => Ok(out.into_inner()),
        Err(e) => Err(e.to_string()),
    }
}

/// Relies on `c2pa::Builder::from_json`: parses a manifest definition.
#[verifier::external_body]
pub(crate) fn builder_from_json(manifest_json: &str) -> (r: Result<c2pa::Builder, String>) {
    c2pa::Builder::from_json(manifest_json).map_err(|e| e.to_string())
}

/// Relies on `c2pa::Builder::from_archive`: restores a builder from
/// archive bytes.
#[verifier::external_body]
pub(crate) fn builder_from_archive(data: Vec<u8>) -> (r: Result<c2pa::Builder, String>) {
    c2pa::Builder::from_archive(std::io::Cursor::new(data)).map_err(|e| e.to_string())
}

/// Relies on `c2pa::Builder::add_resource`: stores the bytes under the
/// given identifier.
#[verifier::external_body]
pub(crate) fn builder_add_resource(
    builder: &mut c2pa::Builder,
    uri: &str,
    data: Vec<u8>,
) -> (r: Result<(), String>) {
    match builder.add_resource(uri, std::io::Cursor::new(data)) {
        Ok(_) => Ok(()),
        Err(e) => Err(e.to_string()),
    }
}

/// Relies on `c2pa::Builder::add_ingredient_from_stream`: records an
/// ingredient from its JSON definition and asset bytes.
#[verifier::external_body]
pub(crate) fn builder_add_ingredient(
    builder: &mut c2pa::Builder,
    ingredient_json: &str,
    format: &str,
    data: Vec<u8>,
) -> (r: Result<(), String>) {
    let mut stream = std::io::Cursor::new(data);
    match builder.add_ingredient_from_stream(ingredient_json, format, &mut stream) {
        Ok(_) => Ok(()),
        Err(e) => Err(e.to_string()),
    }
}

/// Relies on `c2pa::Builder::to_archive`: serializes the builder and
/// hands back the archive bytes.
#[verifier::external_body]
pub(crate) fn builder_to_archive(builder: &c2pa::Builder) -> (r: Result<Vec<u8>, String>) {
    let mut out = std::io::Cursor::new(Vec::new());
    match builder.to_archive(&mut out) {
        Ok(()) => Ok(out.into_inner()),
        Err(e) => Err(e.to_string()),
    }
}

/// Relies on `c2pa::Builder::sign` driving `c2pa::CallbackSigner`: the
/// engine assembles the manifest for the source asset, obtains each
/// signature from `callback`, and produces the signed output.  On success
/// the manifest bytes and the signed output bytes are handed back.
/// Whether it succeeds depends on the engine and the callback, so nothing
/// is promised of the outcome.
#[verifier::external_body]
pub(crate) fn builder_sign<C: SignerCallback + Clone + Send + Sync + 'static>(
    builder: &mut c2pa::Builder,
    callback: &C,
    alg: c2pa::SigningAlg,
    certs_pem: Vec<u8>,
    reserve_size: usize,
    tsa_url: Option<String>,
    format: &str,
    source_bytes: Vec<u8>,
) -> (r: Result<(Vec<u8>, Vec<u8>), String>) {
    let cb = callback.clone();
    let f = move |_ctx, d: &[u8]| cb.sign(d.to_vec()).map_err(|e| c2pa::Error::BadParam(e.message()));
    let mut signer = c2pa::CallbackSigner::new(f, alg, certs_pem);
    signer.reserve_size = reserve_size;
    if let Some(url) = tsa_url {
        signer = signer.set_tsa_url(url);
    }
    let mut source = std::io::Cursor::new(source_bytes);
    let mut dest = std::io::Cursor::new(Vec::new());
    match builder.sign(&signer, format, &mut source, &mut dest) {
        Ok(manifest) => Ok((manifest, dest.into_inner())),
        Err(e) => Err(e.to_string()),
    }
}

} // verus!
