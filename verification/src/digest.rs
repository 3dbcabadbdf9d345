use hmac::{Hmac, KeyInit, Mac};
use md5::{Digest, Md5};
use vstd::prelude::*;

verus! {

/// The HMAC-MD5 code of `message` under `key`, as the `hmac` crate computes it with `md-5`.
pub uninterp spec fn hmac_md5(key: Seq<u8>, message: Seq<u8>) -> Seq<u8>;

/// The MD5 digest of `message`, as the `md-5` crate computes it.
pub uninterp spec fn md5_digest(message: Seq<u8>) -> Seq<u8>;

/// Calls `Hmac::<Md5>::new_from_slice`, `Mac::update` and `Mac::finalize` of the `hmac` crate.
/// Claims only that the 16-byte code is `hmac_md5` of the key and the message: the same inputs
/// give the same code. `new_from_slice` of `hmac` accepts keys of any length and never fails.
#[verifier::external_body]
pub(crate) fn compute_hmac_md5(key: &[u8], message: &[u8]) -> (code: [u8; 16])
    ensures
        code@ == hmac_md5(key@, message@),
{
    let mut mac = <Hmac<Md5> as KeyInit>::new_from_slice(key).expect("HMAC accepts any key");
    mac.update(message);
    mac.finalize().into_bytes().0
}

/// Calls `Digest::digest` of the `md-5` crate. Claims only that the 16-byte digest is
/// `md5_digest` of the message: the same message gives the same digest.
#[verifier::external_body]
pub(crate) fn compute_md5(message: &[u8]) -> (digest: [u8; 16])
    ensures
        digest@ == md5_digest(message@),
{
    Md5::digest(message).0
}

} // verus!
