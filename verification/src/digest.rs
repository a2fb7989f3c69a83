//! Integrity primitives: a rolling MD5 over the delivered bytes, reported as
//! the base64 text the FDT carries.
//!
//! The digest and encoding are computed by the `md5` and `base64` crates;
//! their results are named here and everything around them is verified
//! against those names.

use crate::math::spec_div_ceil;
use vstd::prelude::*;

verus! {

/// The byte stream an `md5::Context` has consumed so far.
pub uninterp spec fn md5_fed(ctx: md5::Context) -> Seq<u8>;

/// The 16-byte MD5 digest of a byte stream: a function of the bytes alone.
pub uninterp spec fn md5_digest_of(data: Seq<u8>) -> Seq<u8>;

/// The standard-alphabet, padded base64 text of a byte string: a function of
/// the bytes alone.
pub uninterp spec fn base64_of(data: Seq<u8>) -> Seq<char>;

#[verifier::external_type_specification]
#[verifier::external_body]
pub struct ExMd5Context(md5::Context);

/// Relies on `md5::Context::new`: a context that has consumed nothing.
#[verifier::external_body]
pub fn md5_context_new() -> (r: md5::Context)
    ensures
        md5_fed(r) == Seq::<u8>::empty(),
{
    md5::Context::new()
}

/// Relies on `md5::Context::consume`: appends the bytes to the hashed stream.
#[verifier::external_body]
pub fn md5_consume(ctx: &mut md5::Context, data: &[u8])
    ensures
        md5_fed(*final(ctx)) == md5_fed(*old(ctx)) + data@,
{
    ctx.consume(data)
}

/// Relies on `md5::Context::finalize`: the 16-byte MD5 digest of everything
/// the context consumed, determined by those bytes alone.
#[verifier::external_body]
pub fn md5_finalize(ctx: md5::Context) -> (r: Vec<u8>)
    ensures
        r@ == md5_digest_of(md5_fed(ctx)),
        r@.len() == 16,
{
    ctx.finalize().0.to_vec()
}

/// Relies on `base64::engine::general_purpose::STANDARD.encode`:
/// standard-alphabet, padded base64 — four characters for every started
/// three-byte group, determined by the input bytes alone.
#[verifier::external_body]
pub fn base64_encode(data: &[u8]) -> (r: String)
    ensures
        r@ == base64_of(data@),
        r@.len() == 4 * spec_div_ceil(data@.len() as int, 3),
{
    base64::Engine::encode(&base64::engine::general_purpose::STANDARD, data)
}

} // verus!
