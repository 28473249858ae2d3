//! The signing algorithms the boundary accepts, and the parsing of their
//! names.
//!
//! A caller configures a signer with an algorithm name; the name is
//! matched against the seven supported algorithms without regard to
//! ASCII case, so a caller may spell it either way.

use vstd::prelude::*;

verus! {

use vstd::string::StringSliceAdditionalSpecFns;

/// The signing algorithms a caller can select.
#[derive(Debug, Clone, Copy, PartialEq, Eq, Structural)]
pub enum C2paSigningAlg {
    /// ECDSA with SHA-256.
    Es256,
    /// ECDSA with SHA-384.
    Es384,
    /// ECDSA with SHA-512.
    Es512,
    /// RSASSA-PSS with SHA-256.
    Ps256,
    /// RSASSA-PSS with SHA-384.
    Ps384,
    /// RSASSA-PSS with SHA-512.
    Ps512,
    /// Edwards-curve DSA over Curve25519.
    Ed25519,
}

/// `b` with an ASCII upper-case letter folded to lower case.
pub open spec fn lower_byte(b: u8) -> u8 {
    if 65 <= b <= 90 {
        (b + 32) as u8
    } else {
        b
    }
}

/// `s` with every ASCII upper-case letter folded to lower case.
pub open spec fn lower_bytes(s: Seq<u8>) -> Seq<u8> {
    Seq::new(s.len(), |i: int| lower_byte(s[i]))
}

/// The algorithm a name in UTF-8 bytes selects, if any: the name must
/// equal one of the seven algorithm names up to ASCII case.
pub open spec fn alg_from_name(s: Seq<u8>) -> Option<C2paSigningAlg> {
    let l = lower_bytes(s);
    if l == ("es256").spec_bytes() {
        Some(C2paSigningAlg::Es256)
    } else if l == ("es384").spec_bytes() {
        Some(C2paSigningAlg::Es384)
    } else if l == ("es512").spec_bytes() {
        Some(C2paSigningAlg::Es512)
    } else if l == ("ps256").spec_bytes() {
        Some(C2paSigningAlg::Ps256)
    } else if l == ("ps384").spec_bytes() {
        Some(C2paSigningAlg::Ps384)
    } else if l == ("ps512").spec_bytes() {
        Some(C2paSigningAlg::Ps512)
    } else if l == ("ed25519").spec_bytes() {
        Some(C2paSigningAlg::Ed25519)
    } else {
        None
    }
}

/// Whether two byte strings are equal.
fn bytes_eq(a: &[u8], b: &[u8]) -> (r: bool)
    ensures
        r <==> a@ == b@,
{
    if a.len() != b.len() {
        proof {
            assert(a@.len() != b@.len());
        }
        return false;
    }
    let mut i: usize = 0;
    while i < a.len()
        invariant
            i <= a@.len(),
            a@.len() == b@.len(),
            forall|j: int| 0 <= j < i ==> a@[j] == b@[j],
        decreases a@.len() - i,
    {
        if a[i] != b[i] {
            return false;
        }
        i = i + 1;
    }
    proof {
        assert(a@ =~= b@);
    }
    true
}

/// A copy of `s` with ASCII upper-case letters folded to lower case.
fn ascii_lower_vec(s: &[u8]) -> (r: Vec<u8>)
    ensures
        r@ == lower_bytes(s@),
{
    let mut out: Vec<u8> = Vec::new();
    let mut i: usize = 0;
    while i < s.len()
        invariant
            i <= s@.len(),
            out@.len() == i,
            forall|j: int| 0 <= j < i ==> out@[j] == lower_byte(s@[j]),
        decreases s@.len() - i,
    {
        let b = s[i];
        if 65 <= b && b <= 90 {
            out.push(b + 32);
        } else {
            out.push(b);
        }
        i = i + 1;
    }
    proof {
        assert(out@ =~= lower_bytes(s@));
    }
    out
}

impl C2paSigningAlg {
    /// Parses an algorithm name, accepting either ASCII case.
    pub fn from_name(name: &str) -> (r: Option<C2paSigningAlg>)
        ensures
            r == alg_from_name(name.spec_bytes()),
    {
        let lowered = ascii_lower_vec(name.as_bytes());
        if bytes_eq(lowered.as_slice(), "es256".as_bytes()) {
            Some(C2paSigningAlg::Es256)
        } else if bytes_eq(lowered.as_slice(), "es384".as_bytes()) {
            Some(C2paSigningAlg::Es384)
        } else if bytes_eq(lowered.as_slice(), "es512".as_bytes()) {
            Some(C2paSigningAlg::Es512)
        } else if bytes_eq(lowered.as_slice(), "ps256".as_bytes()) {
            Some(C2paSigningAlg::Ps256)
        } else if bytes_eq(lowered.as_slice(), "ps384".as_bytes()) {
            Some(C2paSigningAlg::Ps384)
        } else if bytes_eq(lowered.as_slice(), "ps512".as_bytes()) {
            Some(C2paSigningAlg::Ps512)
        } else if bytes_eq(lowered.as_slice(), "ed25519".as_bytes()) {
            Some(C2paSigningAlg::Ed25519)
        } else {
            None
        }
    }
}

} // verus!
