//! In-order block delivery with integrity tracking.
//!
//! The block writer owns the cursor of the next source block to flush. Blocks
//! are handed to the sink strictly in ascending SBN order; the final block is
//! truncated to the object's transfer length; compressed objects stream
//! through the content decoder; and a rolling MD5 over the bytes delivered to
//! the sink is sealed (base64-encoded) when the object completes.

use crate::blockdecoder::BlockDecoder;
use crate::digest::{
    base64_encode, base64_of, md5_consume, md5_context_new, md5_digest_of, md5_fed, md5_finalize,
};
use crate::errors::{ErrorKind, FluteError};
use crate::inflate::{
    inflate_fed, inflate_mode, inflate_new, inflate_of, inflate_out, inflate_step,
    inflate_total_in, spec_cenc_mode, InflateStatus,
};
use crate::lct::Cenc;
use crate::writer::{log_bytes, ObjectWriter};
use vstd::prelude::*;
use vstd::slice::slice_subrange;

verus! {

/// Output-buffer size of one decompression step.
pub const INFLATE_CHUNK: usize = 65536;

/// `data`, cut to at most `n` bytes.
pub open spec fn spec_trunc(data: Seq<u8>, n: int) -> Seq<u8> {
    if data.len() <= n {
        data
    } else {
        data.take(n)
    }
}

/// Writes the blocks of one object to its sink, in ascending SBN order.
pub struct BlockWriter {
    /// The next block to deliver.
    pub sbn: u32,
    /// Wire bytes of the object still to deliver.
    pub bytes_left: usize,
    /// Decoded bytes the sink still accepts, when the FDT announced a length.
    pub content_length_left: Option<usize>,
    /// Content encoding of the object.
    pub cenc: Cenc,
    /// The streaming content decoder, for compressed objects.
    pub decoder: Option<flate2::Decompress>,
    /// Rolling MD5 over the delivered bytes, when verification is on.
    pub md5_context: Option<md5::Context>,
    /// The sealed digest, base64-encoded, once the object completed.
    pub md5: Option<String>,
    /// Everything handed to the sink so far.
    pub delivered: Ghost<Seq<u8>>,
    /// Wire bytes consumed so far (after transfer-length truncation).
    pub transferred: Ghost<Seq<u8>>,
    /// The content length the FDT announced at construction, if any.
    pub announced_content_length: Ghost<Option<usize>>,
}

impl BlockWriter {
    /// The writer's invariant: the MD5 context has consumed exactly the
    /// delivered bytes; a sealed digest is the digest of the delivered bytes;
    /// raw objects deliver the wire bytes unchanged; compressed objects
    /// deliver a prefix of the decoder's output — the whole output unless the
    /// announced content length cut it off, and never more decoded bytes than
    /// that length.
    pub open spec fn wf(&self) -> bool {
        &&& (self.md5_context matches Some(ctx) ==> md5_fed(ctx) == self.delivered@)
        &&& (self.md5 matches Some(m) ==> m@ == base64_of(md5_digest_of(self.delivered@)))
        &&& (self.md5 is Some ==> self.bytes_left == 0 && self.md5_context is None)
        &&& (self.announced_content_length@ is Some <==> self.content_length_left is Some)
        &&& (self.cenc == Cenc::Null ==> self.content_length_left
            == self.announced_content_length@)
        &&& (self.cenc != Cenc::Null ==> (self.announced_content_length@ matches Some(n) ==> (
        self.content_length_left matches Some(left) && self.delivered@.len() + left == n)))
        &&& (self.cenc == Cenc::Null ==> self.decoder is None && self.delivered@
            == self.transferred@)
        &&& (self.cenc != Cenc::Null ==> (self.decoder matches Some(d) && {
            &&& inflate_mode(d) == spec_cenc_mode(self.cenc)
            &&& inflate_fed(d) == self.transferred@
            &&& self.delivered@.len() <= inflate_out(d).len()
            &&& self.delivered@ == inflate_out(d).take(self.delivered@.len() as int)
            &&& (self.delivered@.len() < inflate_out(d).len() ==> self.content_length_left
                == Some(0usize))
            &&& (self.content_length_left is None ==> self.delivered@ == inflate_out(d))
        }))
    }

    /// A writer for one object of `transfer_length` wire bytes.
    pub fn new(transfer_length: usize, content_length: Option<usize>, cenc: Cenc, md5: bool) -> (r:
        BlockWriter)
        ensures
            r.wf(),
            r.sbn == 0,
            r.bytes_left == transfer_length,
            r.content_length_left == content_length,
            r.announced_content_length@ == content_length,
            r.cenc == cenc,
            r.md5 is None,
            md5 <==> r.md5_context is Some,
            r.delivered@ == Seq::<u8>::empty(),
            r.transferred@ == Seq::<u8>::empty(),
    {
        let decoder = if cenc == Cenc::Null {
            None
        } else {
            let d = inflate_new(cenc);
            proof {
                assert(inflate_out(d).take(0) =~= Seq::<u8>::empty());
            }
            Some(d)
        };
        BlockWriter {
            sbn: 0,
            bytes_left: transfer_length,
            content_length_left: content_length,
            cenc,
            decoder,
            md5_context: if md5 {
                Some(md5_context_new())
            } else {
                None
            },
            md5: None,
            delivered: Ghost(Seq::empty()),
            transferred: Ghost(Seq::empty()),
            announced_content_length: Ghost(content_length),
        }
    }

    /// Whether the sealed digest matches an announced one; an object without
    /// a sealed digest passes.
    pub fn check_md5(&self, md5: &str) -> (r: bool)
        ensures
            r == match self.md5 {
                Some(m) => m@ == md5@,
                None => true,
            },
    {
        match &self.md5 {
            Some(m) => {
                let other = md5.to_owned();
                *m == other
            },
            None => true,
        }
    }

    /// The sealed digest, once the object completed with MD5 enabled.
    pub fn get_md5(&self) -> (r: Option<&str>)
        ensures
            r is Some <==> self.md5 is Some,
            r matches Some(m) ==> m@ == self.md5->0@,
    {
        match &self.md5 {
            Some(m) => Some(m.as_str()),
            None => None,
        }
    }

    /// Wire bytes still to deliver.
    pub fn left(&self) -> (r: usize)
        ensures
            r == self.bytes_left,
    {
        self.bytes_left
    }

    /// Whether every wire byte of the object has been delivered.
    pub fn is_completed(&self) -> (r: bool)
        ensures
            r == (self.bytes_left == 0),
    {
        self.bytes_left == 0
    }

    /// Deliver one reassembled block.
    ///
    /// A block other than the cursor's is refused with `Ok(false)` and
    /// nothing changes: block `N + 1` is never written before block `N`. The
    /// cursor's block is truncated to the remaining transfer length, passed
    /// raw or through the content decoder, and handed to the sink under the
    /// current SBN; the cursor then advances. When the object completes, the
    /// decoder is drained and the rolling MD5 is sealed. After an `Err` the
    /// writer is dead: the object is failed and no further block is accepted.
    pub fn write<W: ObjectWriter>(
        &mut self,
        sbn: u32,
        block: &BlockDecoder,
        writer: &mut W,
        now: u64,
    ) -> (r: Result<bool, FluteError>)
        requires
            old(self).wf(),
            old(self).sbn == sbn ==> sbn < 0xFFFF_FFFFu32,
        ensures
            r matches Ok(ok) ==> (ok <==> old(self).sbn == sbn && old(self).bytes_left > 0),
            old(self).sbn != sbn || old(self).bytes_left == 0 ==> r matches Ok(false),
            r matches Ok(false) ==> *final(self) == *old(self) && *final(writer) == *old(writer),
            final(self).cenc == old(self).cenc,
            final(self).announced_content_length == old(self).announced_content_length,
            r is Err ==> final(self).sbn == old(self).sbn && final(self).bytes_left == old(
                self,
            ).bytes_left && final(self).md5 == old(self).md5 && (final(self).md5_context is Some
                <==> old(self).md5_context is Some),
            r matches Err(e) ==> e.kind == ErrorKind::Codec || e.kind == ErrorKind::Writer,
            old(self).sbn == sbn && old(self).bytes_left > 0 && block.decoded_bytes() is None ==> (
            r matches Err(e) && e.kind == ErrorKind::Codec),
            r is Ok && old(self).cenc != Cenc::Null ==> (old(self).announced_content_length@
                matches Some(n) ==> final(self).delivered@.len() <= n),
            final(writer).log().len() >= old(writer).log().len(),
            final(writer).log().take(old(writer).log().len() as int) == old(writer).log(),
            forall|i: int|
                old(writer).log().len() <= i < final(writer).log().len() ==> (#[trigger] final(writer).log()[i]).0 == old(self).sbn,
            r is Ok ==> final(self).wf(),
            r matches Ok(true) ==> {
                &&& block.decoded_bytes() matches Some(bytes)
                &&& final(self).sbn == old(self).sbn + 1
                &&& final(self).cenc == old(self).cenc
                &&& final(self).bytes_left == (if old(self).bytes_left > bytes.len() {
                    old(self).bytes_left - bytes.len()
                } else {
                    0int
                })
                &&& final(self).transferred@ == old(self).transferred@ + spec_trunc(
                    bytes,
                    old(self).bytes_left as int,
                )
                &&& (old(self).cenc == Cenc::Null ==> final(self).delivered@ == old(self).delivered@ + spec_trunc(bytes, old(self).bytes_left as int))
                &&& final(self).delivered@.take(old(self).delivered@.len() as int) == old(self).delivered@
                &&& log_bytes(final(writer).log()) == log_bytes(old(writer).log()) + final(self).delivered@.skip(old(self).delivered@.len() as int)
                &&& (final(self).bytes_left != 0 ==> final(self).md5 == old(self).md5)
                &&& (final(self).bytes_left == 0 && old(self).md5_context is Some ==> (final(self).md5 matches Some(m) && m@ == base64_of(md5_digest_of(final(self).delivered@))))
                &&& (final(self).bytes_left == 0 && old(self).md5_context is None ==> final(self).md5 == old(self).md5)
                &&& (old(self).cenc != Cenc::Null && final(self).bytes_left == 0 && old(self).content_length_left is None ==> final(self).delivered@ == inflate_of(
                    spec_cenc_mode(old(self).cenc),
                    final(self).transferred@,
                ))
            },
    {
        if self.sbn != sbn || self.bytes_left == 0 {
            return Ok(false);
        }
        let data_full = match block.source_block() {
            Ok(d) => d,
            Err(e) => {
                return Err(e);
            },
        };

        // The last block of the object may run past the transfer length:
        // everything beyond it is padding and is dropped here.
        let data = if self.bytes_left > data_full.len() {
            data_full
        } else {
            slice_subrange(data_full, 0, self.bytes_left)
        };

        if self.cenc == Cenc::Null {
            match self.write_pkt_cenc_null(data, writer, now) {
                Ok(()) => {},
                Err(e) => {
                    return Err(e);
                },
            }
        } else {
            match self.decode_write_pkt(data, writer, now) {
                Ok(()) => {},
                Err(e) => {
                    return Err(e);
                },
            }
        }

        let ghost del1 = self.delivered@;
        let ghost log1 = writer.log();
        proof {
            assert(data@ =~= spec_trunc(data_full@, old(self).bytes_left as int));
            assert(old(self).transferred@ + data@ =~= old(self).transferred@ + spec_trunc(
                data_full@,
                old(self).bytes_left as int,
            ));
            if old(self).cenc == Cenc::Null {
                assert((old(self).delivered@ + data@).skip(old(self).delivered@.len() as int)
                    =~= data@);
                assert((old(self).delivered@ + data@).take(old(self).delivered@.len() as int)
                    =~= old(self).delivered@);
                assert(old(self).delivered@ + data@ =~= old(self).delivered@ + spec_trunc(
                    data_full@,
                    old(self).bytes_left as int,
                ));
            }
        }

        let new_left = self.bytes_left - data.len();

        if new_left == 0 {
            if self.decoder.is_some() {
                let finish_result = self.finish_decoder(writer, now);
                proof {
                    let len0 = old(writer).log().len() as int;
                    assert(writer.log().take(len0) =~= log1.take(len0));
                    assert forall|i: int|
                        len0 <= i < writer.log().len() implies (#[trigger] writer.log()[i]).0
                        == old(self).sbn by {
                        if i < log1.len() {
                            assert(writer.log().take(log1.len() as int)[i] == log1[i]);
                        }
                    }
                }
                match finish_result {
                    Ok(()) => {},
                    Err(e) => {
                        return Err(e);
                    },
                }
                proof {
                    let dlen0 = old(self).delivered@.len() as int;
                    assert(self.delivered@.take(dlen0) =~= del1.take(dlen0));
                    assert(self.delivered@.skip(dlen0) =~= del1.skip(dlen0) + self.delivered@.skip(
                        del1.len() as int,
                    ));
                }
            }
            let mut taken: Option<md5::Context> = None;
            core::mem::swap(&mut taken, &mut self.md5_context);
            match taken {
                Some(ctx) => {
                    let output = md5_finalize(ctx);
                    self.md5 = Some(base64_encode(output.as_slice()));
                },
                None => {},
            }
        }

        self.bytes_left = new_left;
        self.sbn = self.sbn + 1;

        Ok(true)
    }

    /// Deliver a raw (unencoded) block: the wire bytes go to the sink as they
    /// are, under the current SBN, and the rolling MD5 consumes them.
    fn write_pkt_cenc_null<W: ObjectWriter>(&mut self, data: &[u8], writer: &mut W, now: u64) -> (r:
        Result<(), FluteError>)
        requires
            old(self).wf(),
            old(self).md5 is None,
            old(self).cenc == Cenc::Null,
        ensures
            final(self).sbn == old(self).sbn,
            final(self).bytes_left == old(self).bytes_left,
            final(self).content_length_left == old(self).content_length_left,
            final(self).cenc == old(self).cenc,
            final(self).md5 == old(self).md5,
            final(self).announced_content_length == old(self).announced_content_length,
            (final(self).md5_context is Some <==> old(self).md5_context is Some),
            final(self).decoder is None,
            final(writer).log().len() >= old(writer).log().len(),
            final(writer).log().take(old(writer).log().len() as int) == old(writer).log(),
            forall|i: int|
                old(writer).log().len() <= i < final(writer).log().len() ==> (#[trigger] final(writer).log()[i]).0 == old(self).sbn,
            r is Ok ==> {
                &&& final(self).wf()
                &&& final(self).delivered@ == old(self).delivered@ + data@
                &&& final(self).transferred@ == old(self).transferred@ + data@
                &&& final(writer).log() == old(writer).log().push((old(self).sbn, data@))
            },
            r is Err ==> *final(self) == *old(self) && final(writer).log() == old(writer).log(),
            r matches Err(e) ==> e.kind == ErrorKind::Writer,
    {
        match writer.write(self.sbn, data, now) {
            Ok(()) => {},
            Err(e) => {
                return Err(e);
            },
        }
        match &mut self.md5_context {
            Some(ctx) => md5_consume(ctx, data),
            None => {},
        }
        proof {
            self.delivered@ = self.delivered@ + data@;
            self.transferred@ = self.transferred@ + data@;
            crate::writer::lemma_log_bytes_push(old(writer).log(), (old(self).sbn, data@));
        }
        Ok(())
    }

    /// Feed one block's wire bytes through the content decoder, delivering
    /// the decoded chunks to the sink under the current SBN.
    fn decode_write_pkt<W: ObjectWriter>(&mut self, pkt: &[u8], writer: &mut W, now: u64) -> (r:
        Result<(), FluteError>)
        requires
            old(self).wf(),
            old(self).md5 is None,
            old(self).cenc != Cenc::Null,
        ensures
            final(self).sbn == old(self).sbn,
            final(self).bytes_left == old(self).bytes_left,
            final(self).cenc == old(self).cenc,
            final(self).md5 == old(self).md5,
            final(self).announced_content_length == old(self).announced_content_length,
            (final(self).md5_context is Some <==> old(self).md5_context is Some),
            final(self).content_length_left is Some <==> old(self).content_length_left is Some,
            r matches Err(e) ==> e.kind == ErrorKind::Codec || e.kind == ErrorKind::Writer,
            final(writer).log().len() >= old(writer).log().len(),
            final(writer).log().take(old(writer).log().len() as int) == old(writer).log(),
            forall|i: int|
                old(writer).log().len() <= i < final(writer).log().len() ==> (#[trigger] final(writer).log()[i]).0 == old(self).sbn,
            r is Ok ==> {
                &&& final(self).wf()
                &&& final(self).transferred@ == old(self).transferred@ + pkt@
                &&& final(self).delivered@.len() >= old(self).delivered@.len()
                &&& final(self).delivered@.take(old(self).delivered@.len() as int) == old(self).delivered@
                &&& log_bytes(final(writer).log()) == log_bytes(old(writer).log()) + final(self).delivered@.skip(old(self).delivered@.len() as int)
                &&& (old(self).content_length_left matches Some(l1) ==> (final(self).content_length_left matches Some(l2) && l2 <= l1 && final(self).delivered@.len()
                    - old(self).delivered@.len() == l1 - l2))
            },
    {
        let cur_sbn = self.sbn;
        let ghost delivered_before = self.delivered@;
        let ghost transferred_before = self.transferred@;
        match &mut self.decoder {
            Some(d) => {
                let newdel = match inflate_pump(
                    d,
                    &mut self.md5_context,
                    &mut self.content_length_left,
                    cur_sbn,
                    pkt,
                    false,
                    writer,
                    now,
                    Ghost(delivered_before),
                ) {
                    Ok(g) => g,
                    Err(e) => {
                        return Err(e);
                    },
                };
                proof {
                    self.delivered@ = newdel@;
                    self.transferred@ = transferred_before + pkt@;
                }
                Ok(())
            },
            None => {
                proof {
                    assert(false);
                }
                Err(FluteError::new(ErrorKind::Codec, "no content decoder"))
            },
        }
    }

    /// Drain the content decoder once every wire byte is in: the end of the
    /// compressed stream must have been reached, and everything it decodes to
    /// is delivered.
    fn finish_decoder<W: ObjectWriter>(&mut self, writer: &mut W, now: u64) -> (r: Result<
        (),
        FluteError,
    >)
        requires
            old(self).wf(),
            old(self).md5 is None,
            old(self).cenc != Cenc::Null,
        ensures
            final(self).sbn == old(self).sbn,
            final(self).bytes_left == old(self).bytes_left,
            final(self).cenc == old(self).cenc,
            final(self).md5 == old(self).md5,
            final(self).announced_content_length == old(self).announced_content_length,
            (final(self).md5_context is Some <==> old(self).md5_context is Some),
            final(self).content_length_left is Some <==> old(self).content_length_left is Some,
            r matches Err(e) ==> e.kind == ErrorKind::Codec || e.kind == ErrorKind::Writer,
            final(writer).log().len() >= old(writer).log().len(),
            final(writer).log().take(old(writer).log().len() as int) == old(writer).log(),
            forall|i: int|
                old(writer).log().len() <= i < final(writer).log().len() ==> (#[trigger] final(writer).log()[i]).0 == old(self).sbn,
            r is Ok ==> {
                &&& final(self).wf()
                &&& final(self).transferred@ == old(self).transferred@
                &&& final(self).delivered@.len() >= old(self).delivered@.len()
                &&& final(self).delivered@.take(old(self).delivered@.len() as int) == old(self).delivered@
                &&& log_bytes(final(writer).log()) == log_bytes(old(writer).log()) + final(self).delivered@.skip(old(self).delivered@.len() as int)
                &&& (old(self).content_length_left matches Some(l1) ==> (final(self).content_length_left matches Some(l2) && l2 <= l1 && final(self).delivered@.len()
                    - old(self).delivered@.len() == l1 - l2))
                &&& (old(self).content_length_left is None ==> final(self).delivered@
                    == inflate_of(spec_cenc_mode(old(self).cenc), final(self).transferred@))
            },
    {
        let cur_sbn = self.sbn;
        let ghost delivered_before = self.delivered@;
        let ghost transferred_before = self.transferred@;
        let empty: Vec<u8> = Vec::new();
        match &mut self.decoder {
            Some(d) => {
                let newdel = match inflate_pump(
                    d,
                    &mut self.md5_context,
                    &mut self.content_length_left,
                    cur_sbn,
                    empty.as_slice(),
                    true,
                    writer,
                    now,
                    Ghost(delivered_before),
                ) {
                    Ok(g) => g,
                    Err(e) => {
                        return Err(e);
                    },
                };
                proof {
                    self.delivered@ = newdel@;
                    assert(transferred_before + Seq::<u8>::empty() =~= transferred_before);
                }
                Ok(())
            },
            None => {
                proof {
                    assert(false);
                }
                Err(FluteError::new(ErrorKind::Codec, "no content decoder"))
            },
        }
    }
}

/// Feed `input` through the content decoder, delivering every decoded chunk
/// to the sink under `cur_sbn` (bounded by the content-length budget) and
/// keeping the rolling MD5 in step. With `finish`, drains the decoder to the
/// end of the compressed stream. Returns the updated delivered-bytes view.
#[allow(clippy::too_many_arguments)]
fn inflate_pump<W: ObjectWriter>(
    d: &mut flate2::Decompress,
    md5_context: &mut Option<md5::Context>,
    content_budget: &mut Option<usize>,
    cur_sbn: u32,
    input: &[u8],
    finish: bool,
    writer: &mut W,
    now: u64,
    Ghost(delivered): Ghost<Seq<u8>>,
) -> (r: Result<Ghost<Seq<u8>>, FluteError>)
    requires
        (*old(md5_context) matches Some(ctx) ==> md5_fed(ctx) == delivered),
        delivered.len() <= inflate_out(*old(d)).len(),
        delivered == inflate_out(*old(d)).take(delivered.len() as int),
        delivered.len() < inflate_out(*old(d)).len() ==> *old(content_budget) == Some(0usize),
        *old(content_budget) is None ==> delivered == inflate_out(*old(d)),
    ensures
        inflate_mode(*final(d)) == inflate_mode(*old(d)),
        final(writer).log().len() >= old(writer).log().len(),
        final(writer).log().take(old(writer).log().len() as int) == old(writer).log(),
        forall|i: int|
            old(writer).log().len() <= i < final(writer).log().len() ==> (#[trigger] final(writer).log()[i]).0 == cur_sbn,
        (*final(content_budget) is None <==> *old(content_budget) is None),
        (*final(md5_context) is Some <==> *old(md5_context) is Some),
        r matches Err(e) ==> e.kind == ErrorKind::Codec || e.kind == ErrorKind::Writer,
        r matches Ok(newdel) ==> {
            &&& inflate_fed(*final(d)) == inflate_fed(*old(d)) + input@
            &&& (*old(content_budget) matches Some(l1) ==> (*final(content_budget) matches Some(l2) && l2 <= l1 && newdel@.len() - delivered.len() == l1 - l2))
            &&& (*final(md5_context) matches Some(ctx) ==> md5_fed(ctx) == newdel@)
            &&& newdel@.len() >= delivered.len()
            &&& newdel@.len() <= inflate_out(*final(d)).len()
            &&& newdel@ == inflate_out(*final(d)).take(newdel@.len() as int)
            &&& (newdel@.len() < inflate_out(*final(d)).len() ==> *final(content_budget) == Some(
                0usize,
            ))
            &&& (*final(content_budget) is None ==> newdel@ == inflate_out(*final(d)))
            &&& newdel@.take(delivered.len() as int) == delivered
            &&& log_bytes(final(writer).log()) == log_bytes(old(writer).log()) + newdel@.skip(
                delivered.len() as int,
            )
            &&& (finish ==> inflate_out(*final(d)) == inflate_of(
                inflate_mode(*old(d)),
                inflate_fed(*final(d)),
            ))
        },
{
    let mut offset: usize = 0;
    let ghost mut del = delivered;
    let mut fuel: usize = usize::MAX;
    let ghost fed0 = inflate_fed(*d);
    proof {
        assert(del.skip(delivered.len() as int) =~= Seq::<u8>::empty());
        assert(log_bytes(writer.log()) + Seq::<u8>::empty() =~= log_bytes(writer.log()));
        assert(writer.log().take(writer.log().len() as int) =~= writer.log());
        assert(input@.take(0) =~= Seq::<u8>::empty());
        assert(fed0 + Seq::<u8>::empty() =~= fed0);
    }

    loop
        invariant
            offset <= input@.len(),
            fuel <= usize::MAX,
            inflate_mode(*d) == inflate_mode(*old(d)),
            fed0 == inflate_fed(*old(d)),
            inflate_fed(*d) == fed0 + input@.take(offset as int),
            (*md5_context matches Some(ctx) ==> md5_fed(ctx) == del),
            (*md5_context is Some <==> *old(md5_context) is Some),
            del.len() <= inflate_out(*d).len(),
            del == inflate_out(*d).take(del.len() as int),
            (del.len() < inflate_out(*d).len() ==> *content_budget == Some(0usize)),
            (*content_budget is None <==> *old(content_budget) is None),
            (*old(content_budget) matches Some(l1) ==> (*content_budget matches Some(l) && l <= l1
                && del.len() - delivered.len() == l1 - l)),
            (*content_budget is None ==> del == inflate_out(*d)),
            del.take(delivered.len() as int) == delivered,
            del.len() >= delivered.len(),
            writer.log().len() >= old(writer).log().len(),
            writer.log().take(old(writer).log().len() as int) == old(writer).log(),
            forall|i: int|
                old(writer).log().len() <= i < writer.log().len()
                    ==> (#[trigger] writer.log()[i]).0 == cur_sbn,
            log_bytes(writer.log()) == log_bytes(old(writer).log()) + del.skip(
                delivered.len() as int,
            ),
        decreases fuel,
    {
        if fuel == 0 {
            return Err(FluteError::new(ErrorKind::Codec, "content decoder made no progress"));
        }
        fuel = fuel - 1;

        let in_before = inflate_total_in(d);
        let rest = slice_subrange(input, offset, input.len());
        let step = match inflate_step(d, rest, INFLATE_CHUNK, finish) {
            Ok(p) => p,
            Err(e) => {
                return Err(e);
            },
        };
        let status = step.0;
        let chunk = step.1;
        let in_after = inflate_total_in(d);
        proof {
            assert(in_after - in_before <= rest@.len());
        }
        let consumed = (in_after - in_before) as usize;
        proof {
            assert(fed0 + input@.take(offset as int) + rest@.take(consumed as int) =~= fed0
                + input@.take(offset as int + consumed as int));
        }
        let ghost del_before = del;
        let writable: usize = match *content_budget {
            Some(n) => {
                if chunk.len() > n {
                    n
                } else {
                    chunk.len()
                }
            },
            None => chunk.len(),
        };
        if writable > 0 {
            let part = slice_subrange(chunk.as_slice(), 0, writable);
            let ghost log_before = writer.log();
            match writer.write(cur_sbn, part, now) {
                Ok(()) => {},
                Err(e) => {
                    return Err(e);
                },
            }
            match md5_context {
                Some(ctx) => md5_consume(ctx, part),
                None => {},
            }
            proof {
                crate::writer::lemma_log_bytes_push(log_before, (cur_sbn, part@));
                del = del + part@;
                assert(writer.log().take(old(writer).log().len() as int) =~= log_before.take(
                    old(writer).log().len() as int,
                ));
                assert(del.skip(delivered.len() as int) =~= del_before.skip(
                    delivered.len() as int,
                ) + part@);
                assert(del.take(delivered.len() as int) =~= del_before.take(
                    delivered.len() as int,
                ));
            }
        }
        match content_budget {
            Some(n) => {
                *n = *n - writable;
            },
            None => {},
        }
        proof {
            let out_now = inflate_out(*d);
            assert(del.take(del_before.len() as int) =~= del_before);
            assert(del =~= out_now.take(del.len() as int));
            if *content_budget is None {
                assert(chunk@.take(writable as int) =~= chunk@);
                assert(del =~= out_now);
            }
        }
        let new_offset = offset + consumed;
        offset = new_offset;

        match status {
            InflateStatus::Finished => {
                if offset < input.len() {
                    return Err(
                        FluteError::new(ErrorKind::Codec, "data after end of compressed stream"),
                    );
                }
                proof {
                    assert(input@.take(input@.len() as int) =~= input@);
                }
                return Ok(Ghost(del));
            },
            _ => {
                if !finish && offset == input.len() && chunk.len() < INFLATE_CHUNK {
                    proof {
                        assert(input@.take(input@.len() as int) =~= input@);
                    }
                    return Ok(Ghost(del));
                }
                if consumed == 0 && chunk.len() == 0 {
                    return Err(
                        FluteError::new(ErrorKind::Codec, "content decoder made no progress"),
                    );
                }
            },
        }
    }
}

} // verus!
