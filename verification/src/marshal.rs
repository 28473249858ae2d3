//! Decoding of caller-supplied primitive data.
//!
//! A foreign caller hands the boundary null-terminated strings; they
//! arrive here as `Option<Vec<u8>>` — `None` for a null pointer, the
//! bytes without their terminator otherwise.  A required parameter that
//! is missing or not valid UTF-8 fails fast with a parameter-identifying
//! error in the channel.

use vstd::prelude::*;

use crate::engine::string_from_utf8;
use crate::error::Error;
use crate::error::ErrorChannel;

verus! {

use vstd::utf8::valid_utf8;
use vstd::utf8::decode_utf8;

/// The channel holds a null-parameter error naming `name`.
pub open spec fn channel_has_null_error(ch: ErrorChannel, name: Seq<char>) -> bool {
    match ch.last() {
        Some(Error::NullParameter(n)) => n@ == name,
        _ => false,
    }
}

/// The channel holds a UTF-8 error naming `name`.
pub open spec fn channel_has_utf8_error(ch: ErrorChannel, name: Seq<char>) -> bool {
    match ch.last() {
        Some(Error::Utf8(n)) => n@ == name,
        _ => false,
    }
}

/// The channel holds an engine error.
pub open spec fn channel_has_sdk_error(ch: ErrorChannel) -> bool {
    match ch.last() {
        Some(Error::Sdk(_)) => true,
        _ => false,
    }
}

/// How a required string parameter decodes: the decoded characters, or
/// nothing for a null pointer or bytes that are not UTF-8.
pub open spec fn decoded_str(p: Option<Vec<u8>>) -> Option<Seq<char>> {
    match p {
        Some(b) => if valid_utf8(b@) {
            Some(decode_utf8(b@))
        } else {
            None
        },
        None => None,
    }
}

/// Decodes a required string parameter, failing fast with an error that
/// names the parameter: a null pointer leaves a null-parameter error in
/// the channel, bytes that are not UTF-8 leave a UTF-8 error.  On success
/// the channel is untouched.
pub fn decode_required(ch: &mut ErrorChannel, name: &str, p: Option<Vec<u8>>) -> (r: Option<
    String,
>)
    ensures
        p is None ==> r is None && channel_has_null_error(*final(ch), name@),
        p is Some && !valid_utf8(p.unwrap()@) ==> r is None && channel_has_utf8_error(
            *final(ch),
            name@,
        ),
        p is Some && valid_utf8(p.unwrap()@) ==> r is Some && r.unwrap()@ == decode_utf8(
            p.unwrap()@,
        ) && *final(ch) == *old(ch),
{
    match p {
        None => {
            ch.set_last(Error::NullParameter(String::from_str(name)));
            None
        },
        Some(bytes) => {
            let ghost b = bytes@;
            match string_from_utf8(bytes) {
                Some(s) => Some(s),
                None => {
                    ch.set_last(Error::Utf8(String::from_str(name)));
                    None
                },
            }
        },
    }
}

/// Decodes an optional string parameter: a null pointer is simply absent,
/// but present bytes must still be UTF-8.  The outer `None` reports a
/// decoding failure already recorded in the channel.
pub fn decode_optional(ch: &mut ErrorChannel, name: &str, p: Option<Vec<u8>>) -> (r: Option<
    Option<String>,
>)
    ensures
        p is None ==> r == Some(None::<String>) && *final(ch) == *old(ch),
        p is Some && !valid_utf8(p.unwrap()@) ==> r is None && channel_has_utf8_error(
            *final(ch),
            name@,
        ),
        p is Some && valid_utf8(p.unwrap()@) ==> r is Some && r.unwrap() is Some
            && r.unwrap().unwrap()@ == decode_utf8(p.unwrap()@) && *final(ch) == *old(ch),
{
    match p {
        None => Some(None),
        Some(bytes) => {
            match string_from_utf8(bytes) {
                Some(s) => Some(Some(s)),
                None => {
                    ch.set_last(Error::Utf8(String::from_str(name)));
                    None
                },
            }
        },
    }
}

/// An owned copy of a byte string.
pub fn copy_bytes(s: &[u8]) -> (r: Vec<u8>)
    ensures
        r@ == s@,
{
    let mut out: Vec<u8> = Vec::new();
    let mut i: usize = 0;
    while i < s.len()
        invariant
            i <= s@.len(),
            out@ == s@.take(i as int),
        decreases s@.len() - i,
    {
        out.push(s[i]);
        i = i + 1;
        proof {
            assert(out@ =~= s@.take(i as int));
        }
    }
    proof {
        assert(s@.take(s@.len() as int) =~= s@);
    }
    out
}

/// An owned copy of a list of byte strings.
pub fn copy_byte_vecs(s: &Vec<Vec<u8>>) -> (r: Vec<Vec<u8>>)
    ensures
        r.deep_view() == s.deep_view(),
{
    let mut out: Vec<Vec<u8>> = Vec::new();
    let mut i: usize = 0;
    while i < s.len()
        invariant
            i <= s@.len(),
            out@.len() == i,
            forall|j: int| 0 <= j < i ==> out@[j]@ == s@[j]@,
        decreases s@.len() - i,
    {
        out.push(copy_bytes(s[i].as_slice()));
        i = i + 1;
    }
    proof {
        assert(out.deep_view() =~= s.deep_view());
    }
    out
}

} // verus!
