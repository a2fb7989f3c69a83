//! Streaming content decoding (Zlib, Deflate, Gzip).
//!
//! The stream decoder is `flate2::Decompress`; its consumed and produced byte
//! streams are named here, and the block writer is verified against those
//! names: what reaches the sink is the decompressed form of what came off the
//! wire.

use crate::errors::{ErrorKind, FluteError};
use crate::lct::Cenc;
use vstd::prelude::*;

verus! {

/// Which wrapper format a decoder expects, as a number: 1 zlib, 2 raw
/// deflate, 3 gzip.
pub open spec fn spec_cenc_mode(cenc: Cenc) -> int {
    match cenc {
        Cenc::Null => 0,
        Cenc::Zlib => 1,
        Cenc::Deflate => 2,
        Cenc::Gzip => 3,
    }
}

/// The compressed bytes a decoder has consumed so far.
pub uninterp spec fn inflate_fed(d: flate2::Decompress) -> Seq<u8>;

/// The decompressed bytes a decoder has produced so far.
pub uninterp spec fn inflate_out(d: flate2::Decompress) -> Seq<u8>;

/// The wrapper format a decoder was created for.
pub uninterp spec fn inflate_mode(d: flate2::Decompress) -> int;

/// The full decompressed form of a complete compressed stream under the given
/// wrapper format: a function of the bytes alone.
pub uninterp spec fn inflate_of(mode: int, input: Seq<u8>) -> Seq<u8>;

#[verifier::external_type_specification]
#[verifier::external_body]
pub struct ExDecompress(flate2::Decompress);

/// One decompression step's outcome.
#[derive(Clone, Copy, Debug, PartialEq, Eq, Structural)]
pub enum InflateStatus {
    /// Progress was made; more input or output may follow.
    Working,
    /// No progress possible: needs more input or more output room.
    Stalled,
    /// The stream ended and everything has been produced.
    Finished,
}

/// Relies on `flate2::Decompress::{new, new_gzip}`: a fresh stream decoder
/// for the given wrapper format, with nothing consumed or produced.
#[verifier::external_body]
pub fn inflate_new(cenc: Cenc) -> (r: flate2::Decompress)
    requires
        cenc != Cenc::Null,
    ensures
        inflate_mode(r) == spec_cenc_mode(cenc),
        inflate_fed(r) == Seq::<u8>::empty(),
        inflate_out(r) == Seq::<u8>::empty(),
{
    match cenc {
        Cenc::Zlib => flate2::Decompress::new(true),
        Cenc::Deflate => flate2::Decompress::new(false),
        _ => flate2::Decompress::new_gzip(15),
    }
}

/// Relies on `flate2::Decompress::decompress` and `total_out`: one step
/// consumes a prefix of `input`, produces at most `max_out` bytes into a
/// buffer of exactly that size (`total_out` counts how many), and reports
/// `Finished` exactly at the end of the stream, when everything produced is
/// the decompressed form of everything consumed. A corrupt stream reports a
/// `Codec` error.
#[verifier::external_body]
pub fn inflate_step(d: &mut flate2::Decompress, input: &[u8], max_out: usize, finish: bool) -> (r:
    Result<(InflateStatus, Vec<u8>), FluteError>)
    ensures
        inflate_mode(*final(d)) == inflate_mode(*old(d)),
        r matches Ok(p) ==> {
            &&& inflate_fed(*old(d)).len() <= inflate_fed(*final(d)).len() <= inflate_fed(
                *old(d),
            ).len() + input@.len()
            &&& inflate_fed(*final(d)) == inflate_fed(*old(d)) + input@.take(
                inflate_fed(*final(d)).len() - inflate_fed(*old(d)).len(),
            )
            &&& p.1@.len() <= max_out
            &&& inflate_out(*final(d)) == inflate_out(*old(d)) + p.1@
            &&& (p.0 == InflateStatus::Finished ==> inflate_out(*final(d)) == inflate_of(
                inflate_mode(*old(d)),
                inflate_fed(*final(d)),
            ))
        },
        r matches Err(e) ==> e.kind == ErrorKind::Codec,
{
    let mut out: Vec<u8> = vec![0u8; max_out];
    let flush = if finish {
        flate2::FlushDecompress::Finish
    } else {
        flate2::FlushDecompress::None
    };
    let before = d.total_out();
    let status = d.decompress(input, &mut out, flush);
    out.truncate((d.total_out() - before) as usize);
    match status {
        Ok(flate2::Status::Ok) => Ok((InflateStatus::Working, out)),
        Ok(flate2::Status::BufError) => Ok((InflateStatus::Stalled, out)),
        Ok(flate2::Status::StreamEnd) => Ok((InflateStatus::Finished, out)),
        Err(_) => Err(FluteError::new(ErrorKind::Codec, "invalid compressed stream")),
    }
}

/// Relies on `flate2::Decompress::total_in`: how many compressed bytes the
/// decoder has consumed.
#[verifier::external_body]
pub fn inflate_total_in(d: &flate2::Decompress) -> (r: u64)
    ensures
        r == inflate_fed(*d).len(),
{
    d.total_in()
}

} // verus!
