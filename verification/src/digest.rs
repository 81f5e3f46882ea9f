//! The digest engine: content hashes and keyed signatures over request
//! bodies.
//!
//! A body is hashed over its *signable bytes*: a text value contributes its
//! raw UTF-8 bytes (it is not JSON-quoted first), a structured value its
//! canonical JSON bytes, and an absent value no bytes at all. The same rule
//! feeds both the unkeyed content digest (MD5) and the keyed signature
//! (HMAC-SHA1), so the digest carried in a header and the one embedded in
//! the signing string can never disagree.

use crate::encode::{base64_of, base64_string};
use hmac::{Hmac, Mac};
use md5::{Digest, Md5};
use sha1::Sha1;
use vstd::prelude::*;
use vstd::string::StrSliceExecFns;
use vstd::utf8::encode_utf8;

verus! {

/// A request body in signable form: either raw text or the canonical JSON
/// bytes of a structured value.
#[derive(Debug, Clone)]
pub enum SignableValue {
    /// A plain string, hashed as its raw UTF-8 bytes.
    Text(String),
    /// The canonical JSON serialization of a structured value.
    Structured(Vec<u8>),
}

impl View for SignableValue {
    type V = Seq<u8>;

    open spec fn view(&self) -> Seq<u8> {
        match self {
            SignableValue::Text(s) => encode_utf8(s@),
            SignableValue::Structured(b) => b@,
        }
    }
}

/// The bytes a body is hashed over: none for an absent body.
pub open spec fn signable_bytes(value: Option<SignableValue>) -> Seq<u8> {
    match value {
        None => Seq::empty(),
        Some(v) => v@,
    }
}

/// The 16-byte MD5 digest of a byte sequence, as the `md-5` crate computes
/// it.
pub uninterp spec fn md5_of(data: Seq<u8>) -> Seq<u8>;

/// The 20-byte HMAC-SHA1 tag of a message under a key, as `Hmac<Sha1>`
/// computes it.
pub uninterp spec fn hmac_sha1_of(key: Seq<u8>, data: Seq<u8>) -> Seq<u8>;

/// The base64 text of the MD5 digest of `data`.
pub open spec fn digest_spec(data: Seq<u8>) -> Seq<char> {
    base64_of(md5_of(data))
}

/// The base64 text of the HMAC-SHA1 tag of `data` under `key`.
pub open spec fn sign_spec(key: Seq<u8>, data: Seq<u8>) -> Seq<char> {
    base64_of(hmac_sha1_of(key, data))
}

/// Relies on the `md-5` crate's `Md5`: the 16-byte MD5 digest of the input,
/// a function of the input bytes alone.
#[verifier::external_body]
fn md5_bytes(data: &[u8]) -> (r: Vec<u8>)
    ensures
        r@ == md5_of(data@),
        r@.len() == 16,
{
    let mut hasher = Md5::new();
    hasher.update(data);
    hasher.finalize().to_vec()
}

/// Relies on `Hmac<Sha1>` of the `hmac` and `sha1` crates: the 20-byte
/// HMAC-SHA1 tag of the message under the key, a function of the two alone.
/// `new_from_slice` accepts keys of any length and never fails.
#[verifier::external_body]
fn hmac_sha1_bytes(key: &[u8], data: &[u8]) -> (r: Vec<u8>)
    ensures
        r@ == hmac_sha1_of(key@, data@),
        r@.len() == 20,
{
    let mut mac = <Hmac<Sha1> as Mac>::new_from_slice(key)
        .expect("HMAC accepts keys of any length");
    mac.update(data);
    mac.finalize().into_bytes().to_vec()
}

/// The signable bytes of a body, extracted as [`signable_bytes`] lays out.
fn signable_to_bytes(value: &Option<SignableValue>) -> (r: Vec<u8>)
    ensures
        r@ == signable_bytes(*value),
{
    match value {
        None => Vec::new(),
        Some(SignableValue::Text(s)) => s.as_str().as_bytes_vec(),
        Some(SignableValue::Structured(b)) => vstd::slice::slice_to_vec(b.as_slice()),
    }
}

/// The content digest of a body: base64 of the MD5 digest of its signable
/// bytes.
pub fn content_digest(value: &Option<SignableValue>) -> (r: String)
    ensures
        r@ == digest_spec(signable_bytes(*value)),
{
    let bytes = signable_to_bytes(value);
    let digest = md5_bytes(bytes.as_slice());
    base64_string(digest.as_slice())
}

/// The signature of a body: base64 of the HMAC-SHA1 tag of its signable
/// bytes under `secret`.
pub fn sign(value: &Option<SignableValue>, secret: &[u8]) -> (r: String)
    ensures
        r@ == sign_spec(secret@, signable_bytes(*value)),
{
    let bytes = signable_to_bytes(value);
    let tag = hmac_sha1_bytes(secret, bytes.as_slice());
    base64_string(tag.as_slice())
}

/// An absent body hashes as the empty byte sequence: its digest is the
/// digest of no bytes at all.
pub proof fn lemma_digest_of_absent()
    ensures
        digest_spec(signable_bytes(None)) == digest_spec(Seq::<u8>::empty()),
{
}

/// A text body hashes as its raw UTF-8 bytes: its digest is base64 of the
/// MD5 digest of those bytes, with no JSON quoting in between.
pub proof fn lemma_digest_of_text(s: String)
    ensures
        digest_spec(signable_bytes(Some(SignableValue::Text(s)))) == base64_of(
            md5_of(encode_utf8(s@)),
        ),
{
}

/// A structured body hashes as its canonical JSON bytes: its digest is
/// base64 of the MD5 digest of exactly those bytes.
pub proof fn lemma_digest_of_structured(b: Vec<u8>)
    ensures
        digest_spec(signable_bytes(Some(SignableValue::Structured(b)))) == base64_of(md5_of(b@)),
{
}

/// Signing is deterministic: two bodies with the same signable bytes sign
/// identically under the same secret.
pub proof fn lemma_sign_deterministic(
    v1: Option<SignableValue>,
    v2: Option<SignableValue>,
    key: Seq<u8>,
)
    requires
        signable_bytes(v1) == signable_bytes(v2),
    ensures
        sign_spec(key, signable_bytes(v1)) == sign_spec(key, signable_bytes(v2)),
{
}

} // verus!
