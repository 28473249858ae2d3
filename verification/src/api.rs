//! The boundary entry points.
//!
//! Each entry point validates every caller-supplied input, failing fast
//! with a parameter-identifying error in the channel, then makes a single
//! engine call and translates its outcome into the boundary's return
//! convention: a handle or owned value on success, `None` or `-1` plus a
//! channel write on failure.  Handles live in explicit tables; an entry
//! point that finds a dead handle reports it the same way as a null
//! parameter instead of touching freed memory.

use vstd::prelude::*;

use crate::alg::alg_from_name;
use crate::alg::C2paSigningAlg;
use crate::engine;
use crate::engine::pem_contents;
use crate::error::Error;
use crate::error::ErrorChannel;
use crate::error::last_message_spec;
use crate::handle::HandleTable;
use crate::marshal::channel_has_null_error;
use crate::marshal::channel_has_sdk_error;
use crate::marshal::channel_has_utf8_error;
use crate::marshal::copy_bytes;
use crate::marshal::decode_optional;
use crate::marshal::decode_required;
use crate::marshal::decoded_str;
use crate::signer::opt_str_view;
use crate::signer::C2paSigner;
use crate::signer::SignerCallback;
use crate::signer::SignerConfig;
use crate::stream::written_at;
use crate::stream::MemoryStream;

verus! {

use vstd::utf8::valid_utf8;
use vstd::utf8::decode_utf8;
use vstd::utf8::encode_utf8;

/// A required parameter failed to decode and the channel explains why:
/// it was null, or its bytes were not UTF-8.
pub open spec fn failed_decode(post: ErrorChannel, p: Option<Vec<u8>>, name: Seq<char>) -> bool {
    match p {
        None => channel_has_null_error(post, name),
        Some(b) => !valid_utf8(b@) && channel_has_utf8_error(post, name),
    }
}

/// `post` is `pre` with one fresh occupied slot at `h`.
pub open spec fn fresh_handle<T>(pre: Seq<Option<T>>, post: Seq<Option<T>>, h: usize) -> bool {
    &&& h == pre.len()
    &&& post.len() == pre.len() + 1
    &&& post[h as int] is Some
    &&& forall|j: int| 0 <= j < pre.len() ==> post[j] == pre[j]
}

/// `post` is `pre` with the slot at `h` still occupied — by whatever the
/// operation left there — and every other slot unchanged.
pub open spec fn reoccupied<T>(pre: Seq<Option<T>>, post: Seq<Option<T>>, h: usize) -> bool {
    &&& post.len() == pre.len()
    &&& post[h as int] is Some
    &&& forall|j: int| 0 <= j < pre.len() && j != h ==> post[j] == pre[j]
}

/// The version string of this library together with the engine build it
/// calls into, for callers that log it.
pub fn c2pa_version() -> (r: String)
    ensures
        r@ == "c2pa_c/0.1.0 "@ + "c2pa-rs/0.90.22"@,
{
    let sdk = engine::sdk_name_version();
    String::from_str("c2pa_c/0.1.0 ").concat(sdk.as_str())
}

/// The text of the pending error, or an empty string where none is
/// pending.  The channel is not changed, so repeated queries return the
/// same text.
pub fn c2pa_error(ch: &ErrorChannel) -> (r: String)
    ensures
        match last_message_spec(*ch) {
            Some(m) => r@ == m,
            None => r@.len() == 0,
        },
{
    match ch.last_message() {
        Some(m) => m,
        None => String::new(),
    }
}

/// Creates a reader from an asset held in a stream.
///
/// On success the fresh reader's handle is returned and the channel is
/// untouched; on a missing or malformed format, or an engine failure,
/// `None` is returned and the channel says why.
pub fn c2pa_reader_from_stream(
    ch: &mut ErrorChannel,
    readers: &mut HandleTable<c2pa::Reader>,
    format: Option<Vec<u8>>,
    stream: &MemoryStream,
) -> (h: Option<usize>)
    ensures
        decoded_str(format) is None ==> h is None && final(readers)@ == old(readers)@
            && failed_decode(*final(ch), format, "format"@),
        decoded_str(format) is Some ==> match h {
            Some(hh) => fresh_handle(old(readers)@, final(readers)@, hh) && *final(ch) == *old(ch),
            None => final(readers)@ == old(readers)@ && channel_has_sdk_error(*final(ch)),
        },
{
    let format_s = match decode_required(ch, "format", format) {
        Some(s) => s,
        None => {
            return None;
        },
    };
    match engine::reader_from_stream(format_s.as_str(), stream.contents()) {
        Ok(reader) => Some(readers.insert(reader)),
        Err(msg) => {
            ch.set_last(Error::Sdk(msg));
            None
        },
    }
}

/// Frees a reader handle.  Freeing a dead handle changes nothing.
pub fn c2pa_reader_free(readers: &mut HandleTable<c2pa::Reader>, reader_ptr: usize)
    ensures
        crate::handle::free_step(
            old(readers)@,
            final(readers)@,
            reader_ptr,
            old(readers).live(reader_ptr),
        ),
{
    let _ = readers.free(reader_ptr);
}

/// Renders a reader's manifest store as JSON.  A dead handle is reported
/// through the channel like a null parameter.
pub fn c2pa_reader_json(
    ch: &mut ErrorChannel,
    readers: &HandleTable<c2pa::Reader>,
    reader_ptr: usize,
) -> (r: Option<String>)
    ensures
        readers.live(reader_ptr) ==> r is Some && *final(ch) == *old(ch),
        !readers.live(reader_ptr) ==> r is None && channel_has_null_error(
            *final(ch),
            "reader_ptr"@,
        ),
{
    match readers.get(reader_ptr) {
        Some(reader) => Some(engine::reader_json(reader)),
        None => {
            ch.set_last(Error::NullParameter(String::from_str("reader_ptr")));
            None
        },
    }
}

/// Writes the resource at `uri` from a reader into a stream and returns
/// the count of bytes written, or `-1` with the channel set.
pub fn c2pa_reader_resource_to_stream(
    ch: &mut ErrorChannel,
    readers: &HandleTable<c2pa::Reader>,
    reader_ptr: usize,
    uri: Option<Vec<u8>>,
    stream: &mut MemoryStream,
) -> (r: i64)
    ensures
        r == -1 || r >= 0,
        !readers.live(reader_ptr) ==> r == -1 && channel_has_null_error(*final(ch), "reader_ptr"@)
            && *final(stream) == *old(stream),
        readers.live(reader_ptr) && decoded_str(uri) is None ==> r == -1 && failed_decode(
            *final(ch),
            uri,
            "uri"@,
        ) && *final(stream) == *old(stream),
        r == -1 ==> final(ch).last() is Some && *final(stream) == *old(stream),
        r >= 0 ==> (exists|b: Seq<u8>|
            #[trigger] written_at(*old(stream), *final(stream), b) && b.len() == r) && *final(ch)
            == *old(ch),
{
    let reader = match readers.get(reader_ptr) {
        Some(reader) => reader,
        None => {
            ch.set_last(Error::NullParameter(String::from_str("reader_ptr")));
            return -1;
        },
    };
    let uri_s = match decode_required(ch, "uri", uri) {
        Some(s) => s,
        None => {
            return -1;
        },
    };
    let bytes = match engine::reader_resource(reader, uri_s.as_str()) {
        Ok(bytes) => bytes,
        Err(msg) => {
            ch.set_last(Error::Sdk(msg));
            return -1;
        },
    };
    if bytes.len() > usize::MAX - stream.pos() || bytes.len() as u64 > i64::MAX as u64 {
        ch.set_last(Error::Sdk(String::from_str("resource does not fit the stream")));
        return -1;
    }
    let ghost pre = *stream;
    let n = stream.write(bytes.as_slice());
    proof {
        assert(written_at(pre, *stream, bytes@));
    }
    n as i64
}

/// Creates a builder from a JSON manifest definition.
pub fn c2pa_builder_from_json(
    ch: &mut ErrorChannel,
    builders: &mut HandleTable<c2pa::Builder>,
    manifest_json: Option<Vec<u8>>,
) -> (h: Option<usize>)
    ensures
        decoded_str(manifest_json) is None ==> h is None && final(builders)@ == old(builders)@
            && failed_decode(*final(ch), manifest_json, "manifest_json"@),
        decoded_str(manifest_json) is Some ==> match h {
            Some(hh) => fresh_handle(old(builders)@, final(builders)@, hh) && *final(ch) == *old(
                ch,
            ),
            None => final(builders)@ == old(builders)@ && channel_has_sdk_error(*final(ch)),
        },
{
    let json_s = match decode_required(ch, "manifest_json", manifest_json) {
        Some(s) => s,
        None => {
            return None;
        },
    };
    match engine::builder_from_json(json_s.as_str()) {
        Ok(builder) => Some(builders.insert(builder)),
        Err(msg) => {
            ch.set_last(Error::Sdk(msg));
            None
        },
    }
}

/// Restores a builder from an archive held in a stream.
pub fn c2pa_builder_from_archive(
    ch: &mut ErrorChannel,
    builders: &mut HandleTable<c2pa::Builder>,
    stream: &MemoryStream,
) -> (h: Option<usize>)
    ensures
        match h {
            Some(hh) => fresh_handle(old(builders)@, final(builders)@, hh) && *final(ch) == *old(
                ch,
            ),
            None => final(builders)@ == old(builders)@ && channel_has_sdk_error(*final(ch)),
        },
{
    match engine::builder_from_archive(stream.contents()) {
        Ok(builder) => Some(builders.insert(builder)),
        Err(msg) => {
            ch.set_last(Error::Sdk(msg));
            None
        },
    }
}

/// Frees a builder handle.  Freeing a dead handle changes nothing.
pub fn c2pa_builder_free(builders: &mut HandleTable<c2pa::Builder>, builder_ptr: usize)
    ensures
        crate::handle::free_step(
            old(builders)@,
            final(builders)@,
            builder_ptr,
            old(builders).live(builder_ptr),
        ),
{
    let _ = builders.free(builder_ptr);
}

/// Adds a resource, read from a stream, to a builder under `uri`.
/// Returns 0 on success, `-1` with the channel set otherwise; the builder
/// handle stays live and reusable either way.
pub fn c2pa_builder_add_resource(
    ch: &mut ErrorChannel,
    builders: &mut HandleTable<c2pa::Builder>,
    builder_ptr: usize,
    uri: Option<Vec<u8>>,
    stream: &MemoryStream,
) -> (r: i32)
    ensures
        r == 0 || r == -1,
        !old(builders).live(builder_ptr) ==> r == -1 && channel_has_null_error(
            *final(ch),
            "builder_ptr"@,
        ) && final(builders)@ == old(builders)@,
        old(builders).live(builder_ptr) && decoded_str(uri) is None ==> r == -1 && failed_decode(
            *final(ch),
            uri,
            "uri"@,
        ) && final(builders)@ == old(builders)@,
        old(builders).live(builder_ptr) && decoded_str(uri) is Some ==> reoccupied(
            old(builders)@,
            final(builders)@,
            builder_ptr,
        ) && (r == 0 ==> *final(ch) == *old(ch)) && (r == -1 ==> channel_has_sdk_error(
            *final(ch),
        )),
{
    let mut builder = match builders.take(builder_ptr) {
        Some(b) => b,
        None => {
            ch.set_last(Error::NullParameter(String::from_str("builder_ptr")));
            return -1;
        },
    };
    let uri_s = match decode_required(ch, "uri", uri) {
        Some(s) => s,
        None => {
            builders.restore(builder_ptr, builder);
            proof {
                assert(builders@ =~= old(builders)@);
            }
            return -1;
        },
    };
    let result = engine::builder_add_resource(&mut builder, uri_s.as_str(), stream.contents());
    builders.restore(builder_ptr, builder);
    match result {
        Ok(()) => 0,
        Err(msg) => {
            ch.set_last(Error::Sdk(msg));
            -1
        },
    }
}

/// Adds an ingredient, defined by JSON and read from a stream in the
/// given format, to a builder.  Returns 0 on success, `-1` with the
/// channel set otherwise; the builder handle stays live either way.
pub fn c2pa_builder_add_ingredient(
    ch: &mut ErrorChannel,
    builders: &mut HandleTable<c2pa::Builder>,
    builder_ptr: usize,
    ingredient_json: Option<Vec<u8>>,
    format: Option<Vec<u8>>,
    source: &MemoryStream,
) -> (r: i32)
    ensures
        r == 0 || r == -1,
        !old(builders).live(builder_ptr) ==> r == -1 && channel_has_null_error(
            *final(ch),
            "builder_ptr"@,
        ) && final(builders)@ == old(builders)@,
        old(builders).live(builder_ptr) && decoded_str(ingredient_json) is None ==> r == -1
            && failed_decode(*final(ch), ingredient_json, "ingredient_json"@) && final(builders)@
            == old(builders)@,
        old(builders).live(builder_ptr) && decoded_str(ingredient_json) is Some && decoded_str(
            format,
        ) is None ==> r == -1 && failed_decode(*final(ch), format, "format"@) && final(builders)@
            == old(builders)@,
        old(builders).live(builder_ptr) && decoded_str(ingredient_json) is Some && decoded_str(
            format,
        ) is Some ==> reoccupied(old(builders)@, final(builders)@, builder_ptr) && (r == 0
            ==> *final(ch) == *old(ch)) && (r == -1 ==> channel_has_sdk_error(*final(ch))),
{
    let mut builder = match builders.take(builder_ptr) {
        Some(b) => b,
        None => {
            ch.set_last(Error::NullParameter(String::from_str("builder_ptr")));
            return -1;
        },
    };
    let json_s = match decode_required(ch, "ingredient_json", ingredient_json) {
        Some(s) => s,
        None => {
            builders.restore(builder_ptr, builder);
            proof {
                assert(builders@ =~= old(builders)@);
            }
            return -1;
        },
    };
    let format_s = match decode_required(ch, "format", format) {
        Some(s) => s,
        None => {
            builders.restore(builder_ptr, builder);
            proof {
                assert(builders@ =~= old(builders)@);
            }
            return -1;
        },
    };
    let result = engine::builder_add_ingredient(
        &mut builder,
        json_s.as_str(),
        format_s.as_str(),
        source.contents(),
    );
    builders.restore(builder_ptr, builder);
    match result {
        Ok(()) => 0,
        Err(msg) => {
            ch.set_last(Error::Sdk(msg));
            -1
        },
    }
}

/// Writes an archive of the builder to a stream.  Returns 0 on success,
/// `-1` with the channel set otherwise.
pub fn c2pa_builder_to_archive(
    ch: &mut ErrorChannel,
    builders: &HandleTable<c2pa::Builder>,
    builder_ptr: usize,
    stream: &mut MemoryStream,
) -> (r: i32)
    ensures
        r == 0 || r == -1,
        !builders.live(builder_ptr) ==> r == -1 && channel_has_null_error(
            *final(ch),
            "builder_ptr"@,
        ) && *final(stream) == *old(stream),
        r == -1 ==> final(ch).last() is Some && *final(stream) == *old(stream),
        r == 0 ==> (exists|b: Seq<u8>| #[trigger] written_at(*old(stream), *final(stream), b))
            && *final(ch) == *old(ch),
{
    let builder = match builders.get(builder_ptr) {
        Some(b) => b,
        None => {
            ch.set_last(Error::NullParameter(String::from_str("builder_ptr")));
            return -1;
        },
    };
    let bytes = match engine::builder_to_archive(builder) {
        Ok(bytes) => bytes,
        Err(msg) => {
            ch.set_last(Error::Sdk(msg));
            return -1;
        },
    };
    if bytes.len() > usize::MAX - stream.pos() {
        ch.set_last(Error::Sdk(String::from_str("archive does not fit the stream")));
        return -1;
    }
    let ghost pre = *stream;
    let _ = stream.write(bytes.as_slice());
    proof {
        assert(written_at(pre, *stream, bytes@));
    }
    0
}

/// The decoded view of an optional parameter that was accepted: absent,
/// or the decoded characters.
pub open spec fn decoded_opt(p: Option<Vec<u8>>) -> Option<Seq<char>> {
    match p {
        None => None,
        Some(b) => Some(decode_utf8(b@)),
    }
}

/// An optional parameter decodes when it is absent or holds UTF-8.
pub open spec fn opt_ok(p: Option<Vec<u8>>) -> bool {
    match p {
        None => true,
        Some(b) => valid_utf8(b@),
    }
}

/// Signs the builder's manifest over the source asset and writes the
/// signed output to `dest`.  Returns the manifest's byte count together
/// with the manifest bytes, or `-1` and nothing with the channel set.
/// The builder handle stays live for further use whether or not the
/// signing succeeds.
pub fn c2pa_builder_sign<C: SignerCallback + Clone + Send + Sync + 'static>(
    ch: &mut ErrorChannel,
    builders: &mut HandleTable<c2pa::Builder>,
    signers: &HandleTable<C2paSigner<C>>,
    builder_ptr: usize,
    format: Option<Vec<u8>>,
    source: &MemoryStream,
    dest: &mut MemoryStream,
    signer: usize,
) -> (r: (i64, Option<Vec<u8>>))
    ensures
        r.0 == -1 || r.0 >= 0,
        r.0 == -1 <==> r.1 is None,
        !old(builders).live(builder_ptr) ==> r.0 == -1 && channel_has_null_error(
            *final(ch),
            "builder_ptr"@,
        ) && final(builders)@ == old(builders)@ && *final(dest) == *old(dest),
        old(builders).live(builder_ptr) && decoded_str(format) is None ==> r.0 == -1
            && failed_decode(*final(ch), format, "format"@) && final(builders)@ == old(builders)@
            && *final(dest) == *old(dest),
        old(builders).live(builder_ptr) && decoded_str(format) is Some && !signers.live(signer)
            ==> r.0 == -1 && channel_has_null_error(*final(ch), "signer"@) && final(builders)@
            == old(builders)@ && *final(dest) == *old(dest),
        old(builders).live(builder_ptr) && decoded_str(format) is Some && signers.live(signer)
            ==> reoccupied(old(builders)@, final(builders)@, builder_ptr) && (r.0 == -1
            ==> final(ch).last() is Some && *final(dest) == *old(dest)) && (r.0 >= 0 ==> r.1
            is Some && r.1.unwrap()@.len() == r.0 && (exists|b: Seq<u8>|
            #[trigger] written_at(*old(dest), *final(dest), b)) && *final(ch) == *old(ch)),
{
    let mut builder = match builders.take(builder_ptr) {
        Some(b) => b,
        None => {
            ch.set_last(Error::NullParameter(String::from_str("builder_ptr")));
            return (-1, None);
        },
    };
    let format_s = match decode_required(ch, "format", format) {
        Some(s) => s,
        None => {
            builders.restore(builder_ptr, builder);
            proof {
                assert(builders@ =~= old(builders)@);
            }
            return (-1, None);
        },
    };
    let s = match signers.get(signer) {
        Some(s) => s,
        None => {
            ch.set_last(Error::NullParameter(String::from_str("signer")));
            builders.restore(builder_ptr, builder);
            proof {
                assert(builders@ =~= old(builders)@);
            }
            return (-1, None);
        },
    };
    let result = engine::builder_sign(
        &mut builder,
        s.callback(),
        engine::alg_to_engine(s.alg()),
        s.certs_pem(),
        s.reserve_size(),
        s.time_authority_url(),
        format_s.as_str(),
        source.contents(),
    );
    builders.restore(builder_ptr, builder);
    let (manifest, dest_bytes) = match result {
        Ok(pair) => pair,
        Err(msg) => {
            ch.set_last(Error::Sdk(msg));
            return (-1, None);
        },
    };
    if dest_bytes.len() > usize::MAX - dest.pos() || manifest.len() as u64 > i64::MAX as u64 {
        ch.set_last(Error::Sdk(String::from_str("signed output does not fit the stream")));
        return (-1, None);
    }
    let ghost pre = *dest;
    let _ = dest.write(dest_bytes.as_slice());
    proof {
        assert(written_at(pre, *dest, dest_bytes@));
    }
    (manifest.len() as i64, Some(manifest))
}

/// Creates a signer from a signing callback and static configuration.
/// The callback carries its own context.
pub fn c2pa_signer_create<C: SignerCallback>(
    ch: &mut ErrorChannel,
    signers: &mut HandleTable<C2paSigner<C>>,
    callback: C,
    alg: C2paSigningAlg,
    certs: Option<Vec<u8>>,
    tsa_url: Option<Vec<u8>>,
) -> (h: Option<usize>)
    requires
        certs matches Some(b) ==> b@.len() + 10000 <= usize::MAX,
    ensures
        decoded_str(certs) is None ==> h is None && final(signers)@ == old(signers)@
            && failed_decode(*final(ch), certs, "certs"@),
        decoded_str(certs) is Some && !opt_ok(tsa_url) ==> h is None && final(signers)@ == old(
            signers,
        )@ && channel_has_utf8_error(*final(ch), "tsa_url"@),
        decoded_str(certs) is Some && opt_ok(tsa_url) ==> h is Some && fresh_handle(
            old(signers)@,
            final(signers)@,
            h.unwrap(),
        ) && *final(ch) == *old(ch) && ({
            let s = final(signers)@[h.unwrap() as int].unwrap();
            &&& s.callback_spec() == callback
            &&& s.alg_spec() == alg
            &&& s.certs_pem_spec() == certs.unwrap()@
            &&& s.reserve_size_spec() == 10000 + certs.unwrap()@.len()
            &&& s.tsa_spec() == decoded_opt(tsa_url)
            &&& s.ocsp_spec() is None
        }),
{
    let certs_raw = match &certs {
        Some(b) => copy_bytes(b.as_slice()),
        None => Vec::new(),
    };
    let _certs_s = match decode_required(ch, "certs", certs) {
        Some(s) => s,
        None => {
            return None;
        },
    };
    let tsa = match decode_optional(ch, "tsa_url", tsa_url) {
        Some(t) => t,
        None => {
            return None;
        },
    };
    let signer = C2paSigner::from_callback(callback, alg, certs_raw, tsa);
    Some(signers.insert(signer))
}

/// Frees a signer handle.  Freeing a dead handle changes nothing.
pub fn c2pa_signer_free<C: SignerCallback>(
    signers: &mut HandleTable<C2paSigner<C>>,
    signer_ptr: usize,
)
    ensures
        crate::handle::free_step(
            old(signers)@,
            final(signers)@,
            signer_ptr,
            old(signers).live(signer_ptr),
        ),
{
    let _ = signers.free(signer_ptr);
}

/// The algorithm name in `b` decodes and names a supported algorithm.
pub open spec fn alg_accepted(b: Seq<u8>) -> bool {
    alg_from_name(encode_utf8(decode_utf8(b))) is Some
}

/// Creates a signer from a signing callback and a full configuration
/// record, applying the configuration before the handle is handed out:
/// a configuration that does not parse yields no handle.
pub fn c2pa_create_signer<C: SignerCallback>(
    ch: &mut ErrorChannel,
    signers: &mut HandleTable<C2paSigner<C>>,
    callback: C,
    alg: Option<Vec<u8>>,
    certs: Option<Vec<u8>>,
    time_authority_url: Option<Vec<u8>>,
    use_ocsp: bool,
) -> (h: Option<usize>)
    requires
        certs matches Some(b) ==> b@.len() + 20000 <= usize::MAX,
    ensures
        decoded_str(alg) is None ==> h is None && final(signers)@ == old(signers)@
            && failed_decode(*final(ch), alg, "alg"@),
        decoded_str(alg) is Some && decoded_str(certs) is None ==> h is None && final(signers)@
            == old(signers)@ && failed_decode(*final(ch), certs, "certs"@),
        decoded_str(alg) is Some && decoded_str(certs) is Some && !opt_ok(time_authority_url) ==> h
            is None && final(signers)@ == old(signers)@ && channel_has_utf8_error(
            *final(ch),
            "time_authority_url"@,
        ),
        decoded_str(alg) is Some && decoded_str(certs) is Some && opt_ok(time_authority_url) ==> ({
            let cert_bytes = certs.unwrap()@;
            &&& (h is Some <==> alg_accepted(alg.unwrap()@) && pem_contents(cert_bytes) is Some
                && pem_contents(cert_bytes).unwrap().len() > 0)
            &&& (h is None ==> final(signers)@ == old(signers)@ && channel_has_sdk_error(
                *final(ch),
            ))
            &&& (h is Some ==> fresh_handle(old(signers)@, final(signers)@, h.unwrap())
                && *final(ch) == *old(ch) && ({
                let s = final(signers)@[h.unwrap() as int].unwrap();
                &&& s.callback_spec() == callback
                &&& Some(s.alg_spec()) == alg_from_name(encode_utf8(decode_utf8(alg.unwrap()@)))
                &&& s.certs_pem_spec() == cert_bytes
                &&& pem_contents(cert_bytes) == Some(s.certs_spec())
                &&& s.reserve_size_spec() == cert_bytes.len() + 20000
                &&& s.tsa_spec() == decoded_opt(time_authority_url)
                &&& s.ocsp_spec() is None
            }))
        }),
{
    let alg_s = match decode_required(ch, "alg", alg) {
        Some(s) => s,
        None => {
            return None;
        },
    };
    let certs_raw = match &certs {
        Some(b) => copy_bytes(b.as_slice()),
        None => Vec::new(),
    };
    let _certs_s = match decode_required(ch, "certs", certs) {
        Some(s) => s,
        None => {
            return None;
        },
    };
    let tsa = match decode_optional(ch, "time_authority_url", time_authority_url) {
        Some(t) => t,
        None => {
            return None;
        },
    };
    let config = SignerConfig {
        alg: alg_s,
        certs: certs_raw,
        time_authority_url: tsa,
        use_ocsp,
    };
    let mut signer = C2paSigner::new(callback);
    match signer.configure(&config) {
        Ok(()) => Some(signers.insert(signer)),
        Err(e) => {
            ch.set_last(e);
            None
        },
    }
}

/// The signer settings a whole-file signing operation carries: the
/// certificates and key are PEM text, the algorithm a name.
pub struct SignerInfo {
    /// The signing algorithm's name.
    pub alg: String,
    /// The public certificate chain in PEM format.
    pub sign_cert: Vec<u8>,
    /// The private key in PEM format.
    pub private_key: Vec<u8>,
    /// The timestamp authority URL, if any.
    pub ta_url: Option<String>,
}

/// Validated inputs for the whole-file read operation.
pub struct ReadFileRequest {
    /// The asset's path.
    pub path: String,
    /// Where binary resources are written, if anywhere.
    pub data_dir: Option<String>,
}

/// Validated inputs for the whole-file ingredient-read operation.
pub struct ReadIngredientFileRequest {
    /// The asset's path.
    pub path: String,
    /// Where thumbnails and manifest data are written.  Unlike the
    /// whole-manifest read, this operation requires a directory.
    pub data_dir: String,
}

/// Validated inputs for the whole-file signing operation.
pub struct SignFileRequest {
    /// The asset to sign.
    pub source_path: String,
    /// Where the signed asset is written.
    pub dest_path: String,
    /// The JSON manifest definition to sign.
    pub manifest: String,
    /// The signer settings.
    pub signer_info: SignerInfo,
    /// Where binary resources are written, if anywhere.
    pub data_dir: Option<String>,
}

/// Validates the inputs of the whole-file read operation.  The path is
/// required; the resource directory is optional here.
pub fn read_file_request(
    ch: &mut ErrorChannel,
    path: Option<Vec<u8>>,
    data_dir: Option<Vec<u8>>,
) -> (r: Option<ReadFileRequest>)
    ensures
        decoded_str(path) is None ==> r is None && failed_decode(*final(ch), path, "path"@),
        decoded_str(path) is Some && !opt_ok(data_dir) ==> r is None && channel_has_utf8_error(
            *final(ch),
            "data_dir"@,
        ),
        decoded_str(path) is Some && opt_ok(data_dir) ==> r is Some && r.unwrap().path@
            == decoded_str(path).unwrap() && opt_str_view(r.unwrap().data_dir) == decoded_opt(
            data_dir,
        ) && *final(ch) == *old(ch),
{
    let path_s = match decode_required(ch, "path", path) {
        Some(s) => s,
        None => {
            return None;
        },
    };
    let dir = match decode_optional(ch, "data_dir", data_dir) {
        Some(d) => d,
        None => {
            return None;
        },
    };
    Some(ReadFileRequest { path: path_s, data_dir: dir })
}

/// Validates the inputs of the whole-file ingredient-read operation.
/// Here the resource directory is required: a null directory fails with
/// an error naming it, where the whole-manifest read would accept it.
pub fn read_ingredient_file_request(
    ch: &mut ErrorChannel,
    path: Option<Vec<u8>>,
    data_dir: Option<Vec<u8>>,
) -> (r: Option<ReadIngredientFileRequest>)
    ensures
        decoded_str(path) is None ==> r is None && failed_decode(*final(ch), path, "path"@),
        decoded_str(path) is Some && decoded_str(data_dir) is None ==> r is None && failed_decode(
            *final(ch),
            data_dir,
            "data_dir"@,
        ),
        decoded_str(path) is Some && decoded_str(data_dir) is Some ==> r is Some
            && r.unwrap().path@ == decoded_str(path).unwrap() && r.unwrap().data_dir@
            == decoded_str(data_dir).unwrap() && *final(ch) == *old(ch),
{
    let path_s = match decode_required(ch, "path", path) {
        Some(s) => s,
        None => {
            return None;
        },
    };
    let dir = match decode_required(ch, "data_dir", data_dir) {
        Some(d) => d,
        None => {
            return None;
        },
    };
    Some(ReadIngredientFileRequest { path: path_s, data_dir: dir })
}

/// Validates the inputs of the whole-file signing operation: three
/// required strings, the four signer settings, and an optional resource
/// directory, checked in that order.
pub fn sign_file_request(
    ch: &mut ErrorChannel,
    source_path: Option<Vec<u8>>,
    dest_path: Option<Vec<u8>>,
    manifest: Option<Vec<u8>>,
    alg: Option<Vec<u8>>,
    sign_cert: Option<Vec<u8>>,
    private_key: Option<Vec<u8>>,
    ta_url: Option<Vec<u8>>,
    data_dir: Option<Vec<u8>>,
) -> (r: Option<SignFileRequest>)
    ensures
        decoded_str(source_path) is None ==> r is None && failed_decode(
            *final(ch),
            source_path,
            "source_path"@,
        ),
        decoded_str(source_path) is Some && decoded_str(dest_path) is None ==> r is None
            && failed_decode(*final(ch), dest_path, "dest_path"@),
        decoded_str(source_path) is Some && decoded_str(dest_path) is Some && decoded_str(
            manifest,
        ) is None ==> r is None && failed_decode(*final(ch), manifest, "manifest"@),
        decoded_str(source_path) is Some && decoded_str(dest_path) is Some && decoded_str(
            manifest,
        ) is Some && !opt_ok(data_dir) ==> r is None && channel_has_utf8_error(
            *final(ch),
            "data_dir"@,
        ),
        decoded_str(source_path) is Some && decoded_str(dest_path) is Some && decoded_str(
            manifest,
        ) is Some && opt_ok(data_dir) && decoded_str(alg) is None ==> r is None && failed_decode(
            *final(ch),
            alg,
            "alg"@,
        ),
        decoded_str(source_path) is Some && decoded_str(dest_path) is Some && decoded_str(
            manifest,
        ) is Some && opt_ok(data_dir) && decoded_str(alg) is Some && decoded_str(sign_cert)
            is None ==> r is None && failed_decode(*final(ch), sign_cert, "sign_cert"@),
        decoded_str(source_path) is Some && decoded_str(dest_path) is Some && decoded_str(
            manifest,
        ) is Some && opt_ok(data_dir) && decoded_str(alg) is Some && decoded_str(sign_cert)
            is Some && decoded_str(private_key) is None ==> r is None && failed_decode(
            *final(ch),
            private_key,
            "private_key"@,
        ),
        decoded_str(source_path) is Some && decoded_str(dest_path) is Some && decoded_str(
            manifest,
        ) is Some && opt_ok(data_dir) && decoded_str(alg) is Some && decoded_str(sign_cert)
            is Some && decoded_str(private_key) is Some && !opt_ok(ta_url) ==> r is None
            && channel_has_utf8_error(*final(ch), "ta_url"@),
        decoded_str(source_path) is Some && decoded_str(dest_path) is Some && decoded_str(
            manifest,
        ) is Some && opt_ok(data_dir) && decoded_str(alg) is Some && decoded_str(sign_cert)
            is Some && decoded_str(private_key) is Some && opt_ok(ta_url) ==> r is Some && ({
            let q = r.unwrap();
            &&& q.source_path@ == decoded_str(source_path).unwrap()
            &&& q.dest_path@ == decoded_str(dest_path).unwrap()
            &&& q.manifest@ == decoded_str(manifest).unwrap()
            &&& q.signer_info.alg@ == decoded_str(alg).unwrap()
            &&& q.signer_info.sign_cert@ == sign_cert.unwrap()@
            &&& q.signer_info.private_key@ == private_key.unwrap()@
            &&& opt_str_view(q.signer_info.ta_url) == decoded_opt(ta_url)
            &&& opt_str_view(q.data_dir) == decoded_opt(data_dir)
        }) && *final(ch) == *old(ch),
{
    let source_s = match decode_required(ch, "source_path", source_path) {
        Some(s) => s,
        None => {
            return None;
        },
    };
    let dest_s = match decode_required(ch, "dest_path", dest_path) {
        Some(s) => s,
        None => {
            return None;
        },
    };
    let manifest_s = match decode_required(ch, "manifest", manifest) {
        Some(s) => s,
        None => {
            return None;
        },
    };
    let dir = match decode_optional(ch, "data_dir", data_dir) {
        Some(d) => d,
        None => {
            return None;
        },
    };
    let alg_s = match decode_required(ch, "alg", alg) {
        Some(s) => s,
        None => {
            return None;
        },
    };
    let cert_raw = match &sign_cert {
        Some(b) => copy_bytes(b.as_slice()),
        None => Vec::new(),
    };
    let _cert_s = match decode_required(ch, "sign_cert", sign_cert) {
        Some(s) => s,
        None => {
            return None;
        },
    };
    let key_raw = match &private_key {
        Some(b) => copy_bytes(b.as_slice()),
        None => Vec::new(),
    };
    let _key_s = match decode_required(ch, "private_key", private_key) {
        Some(s) => s,
        None => {
            return None;
        },
    };
    let ta = match decode_optional(ch, "ta_url", ta_url) {
        Some(t) => t,
        None => {
            return None;
        },
    };
    Some(
        SignFileRequest {
            source_path: source_s,
            dest_path: dest_s,
            manifest: manifest_s,
            signer_info: SignerInfo {
                alg: alg_s,
                sign_cert: cert_raw,
                private_key: key_raw,
                ta_url: ta,
            },
            data_dir: dir,
        },
    )
}

/// Translates the engine's outcome of a whole-file operation into the
/// boundary's convention: the owned result on success, nothing plus a
/// channel write on failure.
pub fn file_op_response(ch: &mut ErrorChannel, result: Result<String, String>) -> (r: Option<
    String,
>)
    ensures
        match result {
            Ok(s) => r is Some && r.unwrap()@ == s@ && *final(ch) == *old(ch),
            Err(m) => r is None && (match final(ch).last() {
                Some(Error::Sdk(t)) => t@ == m@,
                _ => false,
            }),
        },
{
    match result {
        Ok(s) => Some(s),
        Err(m) => {
            ch.set_last(Error::Sdk(m));
            None
        },
    }
}

} // verus!
