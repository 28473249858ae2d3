//! The signer bridge: a caller-supplied signing callback plus the
//! configuration the engine reads while signing.
//!
//! The callback performs the actual cryptographic signing; the bridge
//! carries the algorithm, the certificate chain, an upper bound for the
//! signature's size, and the optional timestamp-authority URL.  The
//! exclusion a shared signer would need a read/write lock for is
//! expressed directly in the borrows: configuration takes `&mut self`,
//! signing borrows `&self`.

use vstd::prelude::*;

use crate::alg::alg_from_name;
use crate::alg::C2paSigningAlg;
use crate::engine::parse_pem_ders;
use crate::engine::pem_contents;
use crate::error::Error;
use crate::marshal::copy_bytes;
use crate::marshal::copy_byte_vecs;

verus! {

use vstd::math::min;
use vstd::utf8::encode_utf8;

/// The fixed capacity handed to a configured signer's callback for its
/// signature.  Writing more is a caller contract violation.
pub const SIGNATURE_MAX_SIZE: usize = 100000;

/// The text of the error every failing callback maps to: no finer-grained
/// information crosses the boundary from the callback.
pub const SIGNATURE_FAILED_MESSAGE: &'static str = "signature callback failed";

/// Configuration for a signer, as a caller supplies it.
pub struct SignerConfig {
    /// The signing algorithm's name, in either ASCII case.
    pub alg: String,
    /// The certificate chain, as concatenated PEM sections.
    pub certs: Vec<u8>,
    /// URL for a time authority to time stamp the signature.
    pub time_authority_url: Option<String>,
    /// Whether to fetch an OCSP response for the signing certificate.
    /// Recorded but not acted on: no fetch is implemented.
    pub use_ocsp: bool,
}

/// The callback interface for a signer: the implementation signs the
/// given bytes and returns the signature, or reports that it failed.
pub trait SignerCallback: Send + Sync {
    /// Signs `data` and returns the signature.
    fn sign(&self, data: Vec<u8>) -> (r: Result<Vec<u8>, Error>);
}

/// The view of an optional string.
pub open spec fn opt_str_view(o: Option<String>) -> Option<Seq<char>> {
    match o {
        Some(s) => Some(s@),
        None => None,
    }
}

/// The view of optional bytes.
pub open spec fn opt_bytes_view(o: Option<Vec<u8>>) -> Option<Seq<u8>> {
    match o {
        Some(b) => Some(b@),
        None => None,
    }
}

/// A signer: a signing callback plus the configuration the engine reads.
pub struct C2paSigner<C> {
    callback: C,
    alg: C2paSigningAlg,
    certs_pem: Vec<u8>,
    certs: Vec<Vec<u8>>,
    reserve_size: usize,
    time_authority_url: Option<String>,
    ocsp_val: Option<Vec<u8>>,
}

impl<C: SignerCallback> C2paSigner<C> {
    /// The configured algorithm.
    pub closed spec fn alg_spec(&self) -> C2paSigningAlg {
        self.alg
    }

    /// The configured certificate chain, as concatenated PEM bytes.
    pub closed spec fn certs_pem_spec(&self) -> Seq<u8> {
        self.certs_pem@
    }

    /// The certificate chain, as the DER bytes of each certificate.
    pub closed spec fn certs_spec(&self) -> Seq<Seq<u8>> {
        self.certs.deep_view()
    }

    /// The size reserved in the asset for the signature.
    pub closed spec fn reserve_size_spec(&self) -> nat {
        self.reserve_size as nat
    }

    /// The configured timestamp-authority URL.
    pub closed spec fn tsa_spec(&self) -> Option<Seq<char>> {
        opt_str_view(self.time_authority_url)
    }

    /// The cached OCSP response.
    pub closed spec fn ocsp_spec(&self) -> Option<Seq<u8>> {
        opt_bytes_view(self.ocsp_val)
    }

    /// The signing callback.
    pub closed spec fn callback_spec(&self) -> C {
        self.callback
    }

    /// A signer that is not yet configured: a default algorithm, no
    /// certificates, and a token reserve size.
    pub fn new(callback: C) -> (r: C2paSigner<C>)
        ensures
            r.callback_spec() == callback,
            r.alg_spec() == C2paSigningAlg::Ps256,
            r.certs_pem_spec() == Seq::<u8>::empty(),
            r.certs_spec() == Seq::<Seq<u8>>::empty(),
            r.reserve_size_spec() == 1024,
            r.tsa_spec() is None,
            r.ocsp_spec() is None,
    {
        let r = C2paSigner {
            callback,
            alg: C2paSigningAlg::Ps256,
            certs_pem: Vec::new(),
            certs: Vec::new(),
            reserve_size: 1024,
            time_authority_url: None,
            ocsp_val: None,
        };
        proof {
            assert(r.certs.deep_view() =~= Seq::<Seq<u8>>::empty());
        }
        r
    }

    /// A signer built directly from a callback and static configuration,
    /// reserving ten thousand bytes beyond the certificate chain for the
    /// signature.  The chain's DER certificates are derived from the PEM
    /// bytes where they parse; the engine reads the PEM bytes themselves,
    /// so a chain that does not parse surfaces when the engine uses it.
    pub fn from_callback(
        callback: C,
        alg: C2paSigningAlg,
        certs: Vec<u8>,
        tsa_url: Option<String>,
    ) -> (r: C2paSigner<C>)
        requires
            certs@.len() + 10000 <= usize::MAX,
        ensures
            r.callback_spec() == callback,
            r.alg_spec() == alg,
            r.certs_pem_spec() == certs@,
            r.reserve_size_spec() == 10000 + certs@.len(),
            r.tsa_spec() == opt_str_view(tsa_url),
            r.ocsp_spec() is None,
            r.certs_spec() == match pem_contents(certs@) {
                Some(ders) => ders,
                None => Seq::<Seq<u8>>::empty(),
            },
    {
        let ders = match parse_pem_ders(certs.as_slice()) {
            Ok(list) => list,
            Err(_) => Vec::new(),
        };
        let reserve = 10000 + certs.len();
        proof {
            if pem_contents(certs@) is None {
                assert(ders.deep_view() =~= Seq::<Seq<u8>>::empty());
            }
        }
        C2paSigner {
            callback,
            alg,
            certs_pem: certs,
            certs: ders,
            reserve_size: reserve,
            time_authority_url: tsa_url,
            ocsp_val: None,
        }
    }

    /// Applies a configuration: the algorithm name is parsed without
    /// regard to ASCII case, the PEM chain is parsed into its DER
    /// certificates, and the reserve size becomes the chain's byte length
    /// plus twenty thousand — an approximation standing in for the size
    /// of a real timestamp-authority response.  On any failure the signer
    /// is left exactly as it was.
    pub fn configure(&mut self, config: &SignerConfig) -> (r: Result<(), Error>)
        requires
            config.certs@.len() + 20000 <= usize::MAX,
        ensures
            r is Ok <==> alg_from_name(encode_utf8(config.alg@)) is Some && pem_contents(
                config.certs@,
            ) is Some && pem_contents(config.certs@).unwrap().len() > 0,
            r is Ok ==> configured_from(*old(self), *final(self), *config),
            r is Err ==> *final(self) == *old(self) && (match r.unwrap_err() {
                Error::Sdk(m) => {
                    &&& alg_from_name(encode_utf8(config.alg@)) is None ==> m@
                        == "unknown signing algorithm"@
                    &&& alg_from_name(encode_utf8(config.alg@)) is Some && pem_contents(
                        config.certs@,
                    ) == Some(Seq::<Seq<u8>>::empty()) ==> m@ == "no certificates in chain"@
                },
                _ => false,
            }),
    {
        let alg = match C2paSigningAlg::from_name(config.alg.as_str()) {
            Some(a) => a,
            None => {
                return Err(Error::Sdk(String::from_str("unknown signing algorithm")));
            },
        };
        let ders = match parse_pem_ders(config.certs.as_slice()) {
            Ok(list) => list,
            Err(msg) => {
                return Err(Error::Sdk(msg));
            },
        };
        if ders.len() == 0 {
            return Err(Error::Sdk(String::from_str("no certificates in chain")));
        }
        self.alg = alg;
        self.certs_pem = copy_bytes(config.certs.as_slice());
        self.certs = ders;
        self.reserve_size = config.certs.len() + 20000;
        self.time_authority_url = match &config.time_authority_url {
            Some(u) => Some(u.clone()),
            None => None,
        };
        self.ocsp_val = None;
        Ok(())
    }

    /// Signs `data` through the callback.  A callback failure is reported
    /// as an engine error carrying the callback error's text; nothing
    /// finer crosses the boundary.
    pub fn sign(&self, data: Vec<u8>) -> (r: Result<Vec<u8>, Error>)
        ensures
            r is Err ==> r.unwrap_err() is Sdk,
    {
        match self.callback.sign(data) {
            Ok(sig) => Ok(sig),
            Err(e) => Err(Error::Sdk(e.message())),
        }
    }

    /// The configured algorithm.
    pub fn alg(&self) -> (r: C2paSigningAlg)
        ensures
            r == self.alg_spec(),
    {
        self.alg
    }

    /// The certificate chain as the DER bytes of each certificate.
    pub fn certs(&self) -> (r: Result<Vec<Vec<u8>>, Error>)
        ensures
            r is Ok && r.unwrap().deep_view() == self.certs_spec(),
    {
        Ok(copy_byte_vecs(&self.certs))
    }

    /// The certificate chain as the configured PEM bytes.
    pub fn certs_pem(&self) -> (r: Vec<u8>)
        ensures
            r@ == self.certs_pem_spec(),
    {
        copy_bytes(self.certs_pem.as_slice())
    }

    /// The size reserved in the asset for the signature.
    pub fn reserve_size(&self) -> (r: usize)
        ensures
            r == self.reserve_size_spec(),
    {
        self.reserve_size
    }

    /// The configured timestamp-authority URL.
    pub fn time_authority_url(&self) -> (r: Option<String>)
        ensures
            opt_str_view(r) == self.tsa_spec(),
    {
        match &self.time_authority_url {
            Some(u) => Some(u.clone()),
            None => None,
        }
    }

    /// The cached OCSP response.
    pub fn ocsp_val(&self) -> (r: Option<Vec<u8>>)
        ensures
            opt_bytes_view(r) == self.ocsp_spec(),
    {
        match &self.ocsp_val {
            Some(v) => Some(copy_bytes(v.as_slice())),
            None => None,
        }
    }

    /// A borrow of the signing callback.
    pub fn callback(&self) -> (r: &C)
        ensures
            *r == self.callback_spec(),
    {
        &self.callback
    }
}

/// What a successful `configure` leaves behind, relating the new signer
/// state to the configuration and the old state.
pub open spec fn configured_from<C: SignerCallback>(
    pre: C2paSigner<C>,
    post: C2paSigner<C>,
    config: SignerConfig,
) -> bool {
    &&& alg_from_name(encode_utf8(config.alg@)) == Some(post.alg_spec())
    &&& pem_contents(config.certs@) == Some(post.certs_spec())
    &&& post.certs_spec().len() > 0
    &&& post.certs_pem_spec() == config.certs@
    &&& post.reserve_size_spec() == config.certs@.len() + 20000
    &&& post.tsa_spec() == opt_str_view(config.time_authority_url)
    &&& post.ocsp_spec() is None
    &&& post.callback_spec() == pre.callback_spec()
}

/// The reserve size of every configured signer covers every signature of
/// at most twenty thousand bytes, which bounds what a conforming callback
/// produces for each supported algorithm.
pub proof fn lemma_reserve_size_covers_signature<C: SignerCallback>(
    pre: C2paSigner<C>,
    post: C2paSigner<C>,
    config: SignerConfig,
    sig_len: nat,
)
    requires
        configured_from(pre, post, config),
        sig_len <= 20000,
    ensures
        sig_len <= post.reserve_size_spec(),
{
}

/// Interprets what a signing callback left in its output buffer: a
/// negative size is the failure sentinel and maps to the one fixed
/// "signature callback failed" error; otherwise the buffer is cut down
/// to the reported size.
pub fn collect_signature(buffer: Vec<u8>, signed_size: isize) -> (r: Result<Vec<u8>, Error>)
    ensures
        signed_size < 0 ==> r is Err && (match r.unwrap_err() {
            Error::Sdk(m) => m@ == SIGNATURE_FAILED_MESSAGE@,
            _ => false,
        }),
        signed_size >= 0 ==> r is Ok && r.unwrap()@ == buffer@.take(
            min(signed_size as int, buffer@.len() as int),
        ),
{
    if signed_size < 0 {
        Err(Error::Sdk(String::from_str(SIGNATURE_FAILED_MESSAGE)))
    } else {
        let mut buffer = buffer;
        let n = signed_size as usize;
        if n < buffer.len() {
            buffer.truncate(n);
        }
        Ok(buffer)
    }
}

/// The capacity the stateless signer path gives a callback for its
/// signature: twice the input's length, a deliberately generous bound
/// since the exact signature size is not known to the bridge.
pub fn signature_buffer_capacity(data_len: usize) -> (r: usize)
    requires
        data_len * 2 <= usize::MAX,
    ensures
        r == data_len * 2,
{
    data_len * 2
}

} // verus!
