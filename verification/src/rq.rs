//! RaptorQ (RFC 6330) block decoding.
//!
//! The fountain decoding itself is done by the `raptorq` crate behind trusted
//! items; the received-symbol bookkeeping and the meaning of a successful
//! decode are stated over the names below and verified around them.

use crate::errors::{ErrorKind, FluteError};
use crate::math::spec_div_ceil;
use crate::oti::{RaptorQSchemeSpecific, RAPTORQ_MAX_SOURCE_SYMBOLS};
use vstd::arithmetic::mul::lemma_mul_upper_bound;
use vstd::prelude::*;

verus! {

/// Encoding symbol `esi` of a padded source block under RaptorQ with the
/// given symbol size, sub-block count and alignment: a function of the block
/// bytes alone (RFC 6330 is deterministic).
pub uninterp spec fn rq_symbol(
    symbol_size: int,
    sub_blocks: int,
    alignment: int,
    block: Seq<u8>,
    esi: int,
) -> Seq<u8>;

#[verifier::external_type_specification]
#[verifier::external_body]
pub struct ExSourceBlockDecoder(raptorq::SourceBlockDecoder);

/// The symbols a `raptorq::SourceBlockDecoder` has accepted, by ESI (the
/// decoder ignores a repeated ESI).
pub uninterp spec fn rq_received(d: raptorq::SourceBlockDecoder) -> Map<u32, Seq<u8>>;

/// The parameters a `raptorq::SourceBlockDecoder` was built with:
/// `(sbn, symbol_size, sub_blocks, alignment, block_length)`.
pub uninterp spec fn rq_dec_params(d: raptorq::SourceBlockDecoder) -> (u8, u16, u16, u8, u64);

/// Every received symbol agrees with the RaptorQ encoding of `block` (the
/// source block padded to a whole number of symbols).
pub open spec fn rq_consistent(
    symbol_size: int,
    sub_blocks: int,
    alignment: int,
    received: Map<u32, Seq<u8>>,
    block: Seq<u8>,
) -> bool {
    forall|esi: u32|
        received.dom().contains(esi) ==> #[trigger] received[esi] == rq_symbol(
            symbol_size,
            sub_blocks,
            alignment,
            block,
            esi as int,
        )
}

/// Relies on `raptorq::ObjectTransmissionInformation::new` and
/// `raptorq::SourceBlockDecoder::new`: a fresh decoder for one source block,
/// with nothing received.
#[verifier::external_body]
fn rq_new_decoder(sbn: u8, symbol_size: u16, sub_blocks: u16, alignment: u8, len: u64) -> (r:
    raptorq::SourceBlockDecoder)
    requires
        symbol_size >= 1,
        alignment >= 1,
        symbol_size as int % alignment as int == 0,
        sub_blocks >= 1,
        len >= 1,
        spec_div_ceil(len as int, symbol_size as int)
            <= RAPTORQ_MAX_SOURCE_SYMBOLS as int,
    ensures
        forall|i: u32| !rq_received(r).dom().contains(i),
        rq_dec_params(r).0 == sbn,
        rq_dec_params(r).1 == symbol_size,
        rq_dec_params(r).2 == sub_blocks,
        rq_dec_params(r).3 == alignment,
        rq_dec_params(r).4 == len,
{
    let config = raptorq::ObjectTransmissionInformation::new(0, symbol_size, 1, sub_blocks, alignment);
    raptorq::SourceBlockDecoder::new(sbn, &config, len)
}

/// Relies on `raptorq::SourceBlockDecoder::decode`, fed one packet: a symbol
/// for a new ESI is recorded (a repeated ESI is ignored); once every source
/// symbol is in, the padded block is returned; whenever decoding succeeds,
/// the result is the one padded block every received symbol is an encoding
/// of. The ESI must fit the 24-bit field `raptorq::PayloadId` enforces.
#[verifier::external_body]
fn rq_push_decode(d: &mut raptorq::SourceBlockDecoder, sbn: u8, esi: u32, payload: &[u8]) -> (r:
    Option<Vec<u8>>)
    requires
        sbn == rq_dec_params(*old(d)).0,
        esi < 0x0100_0000,
        payload@.len() == rq_dec_params(*old(d)).1,
        rq_dec_params(*old(d)).1 >= 1,
    ensures
        rq_dec_params(*final(d)) == rq_dec_params(*old(d)),
        rq_received(*final(d)) == (if rq_received(*old(d)).dom().contains(esi) {
            rq_received(*old(d))
        } else {
            rq_received(*old(d)).insert(esi, payload@)
        }),
        r matches Some(v) ==> {
            &&& v@.len() == spec_div_ceil(
                rq_dec_params(*old(d)).4 as int,
                rq_dec_params(*old(d)).1 as int,
            ) * rq_dec_params(*old(d)).1 as int
            &&& forall|block: Seq<u8>|
                block.len() == v@.len() && (forall|i: u32|
                    rq_received(*final(d)).dom().contains(i)
                        ==> #[trigger] rq_received(*final(d))[i] == rq_symbol(
                        rq_dec_params(*old(d)).1 as int,
                        rq_dec_params(*old(d)).2 as int,
                        rq_dec_params(*old(d)).3 as int,
                        block,
                        i as int,
                    )) ==> v@ == #[trigger] block.take(block.len() as int)
        },
        (forall|i: u32|
            0 <= i < spec_div_ceil(rq_dec_params(*old(d)).4 as int, rq_dec_params(*old(d)).1 as int)
                ==> #[trigger] rq_received(*final(d)).dom().contains(i)) ==> r is Some,
{
    let pkt = raptorq::EncodingPacket::new(raptorq::PayloadId::new(sbn, esi), payload.to_vec());
    d.decode(core::iter::once(pkt))
}

/// RaptorQ block decoder: accumulates symbols and exposes the padded block
/// once the fountain decode goes through.
pub struct RaptorQDecoder {
    /// Source symbols of the block.
    pub nb_source_symbols: usize,
    /// Bytes per symbol.
    pub encoding_symbol_length: usize,
    /// Block id on the wire (8 bits under RaptorQ).
    pub sbn: u8,
    /// Sub-blocks per block, from the scheme-specific OTI.
    pub sub_blocks_length: u16,
    /// Symbol alignment, from the scheme-specific OTI.
    pub symbol_alignment: u8,
    /// The fountain decoder.
    pub decoder: raptorq::SourceBlockDecoder,
    /// The padded block, once decoded.
    pub decoded: Option<Vec<u8>>,
}

impl RaptorQDecoder {
    /// The decoder's invariant.
    pub open spec fn wf(&self) -> bool {
        &&& 1 <= self.nb_source_symbols <= RAPTORQ_MAX_SOURCE_SYMBOLS
        &&& 1 <= self.encoding_symbol_length <= 0xFFFF
        &&& self.symbol_alignment >= 1
        &&& self.encoding_symbol_length as int % self.symbol_alignment as int == 0
        &&& self.sub_blocks_length >= 1
        &&& rq_dec_params(self.decoder) == (
            self.sbn,
            self.encoding_symbol_length as u16,
            self.sub_blocks_length,
            self.symbol_alignment,
            (self.nb_source_symbols * self.encoding_symbol_length) as u64,
        )
        &&& spec_div_ceil(
            (self.nb_source_symbols * self.encoding_symbol_length) as int,
            self.encoding_symbol_length as int,
        ) == self.nb_source_symbols as int
        &&& (self.decoded matches Some(v) ==> {
            &&& v@.len() == self.nb_source_symbols as int * self.encoding_symbol_length as int
            &&& forall|block: Seq<u8>|
                block.len() == v@.len() && #[trigger] rq_consistent(
                    self.encoding_symbol_length as int,
                    self.sub_blocks_length as int,
                    self.symbol_alignment as int,
                    rq_received(self.decoder),
                    block,
                ) ==> v@ == block
        })
        &&& ((forall|i: u32|
            0 <= i < self.nb_source_symbols ==> #[trigger] rq_received(
                self.decoder,
            ).dom().contains(i)) ==> self.decoded is Some)
    }

    /// A fresh decoder for one block of `nb_source_symbols` symbols of
    /// `encoding_symbol_length` bytes. Rejects parameters RFC 6330 cannot
    /// carry.
    pub fn new(
        sbn: u32,
        nb_source_symbols: usize,
        encoding_symbol_length: usize,
        scheme: &RaptorQSchemeSpecific,
    ) -> (r: Result<RaptorQDecoder, FluteError>)
        ensures
            r is Ok <==> (1 <= nb_source_symbols <= RAPTORQ_MAX_SOURCE_SYMBOLS && 1
                <= encoding_symbol_length <= 0xFFFF && scheme.symbol_alignment >= 1
                && encoding_symbol_length as int % scheme.symbol_alignment as int == 0
                && scheme.sub_blocks_length >= 1 && sbn <= 0xFF),
            r matches Ok(c) ==> {
                &&& c.wf()
                &&& c.nb_source_symbols == nb_source_symbols
                &&& c.encoding_symbol_length == encoding_symbol_length
                &&& c.sbn == sbn as u8
                &&& c.decoded is None
                &&& rq_received(c.decoder) == Map::<u32, Seq<u8>>::empty()
            },
            r matches Err(e) ==> e.kind == ErrorKind::Codec,
    {
        if nb_source_symbols == 0 || nb_source_symbols > RAPTORQ_MAX_SOURCE_SYMBOLS as usize {
            return Err(FluteError::new(ErrorKind::Codec, "bad RaptorQ source block length"));
        }
        if encoding_symbol_length == 0 || encoding_symbol_length > 0xFFFF {
            return Err(FluteError::new(ErrorKind::Codec, "bad RaptorQ symbol length"));
        }
        if scheme.symbol_alignment == 0 || encoding_symbol_length % (
        scheme.symbol_alignment as usize) != 0 {
            return Err(FluteError::new(ErrorKind::Codec, "bad RaptorQ symbol alignment"));
        }
        if scheme.sub_blocks_length == 0 {
            return Err(FluteError::new(ErrorKind::Codec, "bad RaptorQ sub-blocks length"));
        }
        if sbn > 0xFF {
            return Err(FluteError::new(ErrorKind::Codec, "RaptorQ block number exceeds 8 bits"));
        }
        proof {
            lemma_mul_upper_bound(
                nb_source_symbols as int,
                RAPTORQ_MAX_SOURCE_SYMBOLS as int,
                encoding_symbol_length as int,
                0xFFFF,
            );
            lemma_rq_block_symbols(nb_source_symbols as int, encoding_symbol_length as int);
        }
        let block_length: u64 = (nb_source_symbols as u64) * (encoding_symbol_length as u64);
        let decoder = rq_new_decoder(
            sbn as u8,
            encoding_symbol_length as u16,
            scheme.sub_blocks_length,
            scheme.symbol_alignment,
            block_length,
        );
        proof {
            // The fresh decoder has received nothing, so no source symbol is in.
            assert(!rq_received(decoder).dom().contains(0u32));
        }
        Ok(
            RaptorQDecoder {
                nb_source_symbols,
                encoding_symbol_length,
                sbn: sbn as u8,
                sub_blocks_length: scheme.sub_blocks_length,
                symbol_alignment: scheme.symbol_alignment,
                decoder,
                decoded: None,
            },
        )
    }

    /// Feed one received symbol and attempt the decode. A symbol of the wrong
    /// length, one whose ESI exceeds the 24-bit field, a repeated ESI, or a
    /// symbol after completion changes nothing.
    pub fn push_symbol(&mut self, payload: &[u8], esi: u32)
        requires
            old(self).wf(),
        ensures
            final(self).wf(),
            final(self).nb_source_symbols == old(self).nb_source_symbols,
            final(self).encoding_symbol_length == old(self).encoding_symbol_length,
            final(self).sbn == old(self).sbn,
            final(self).sub_blocks_length == old(self).sub_blocks_length,
            final(self).symbol_alignment == old(self).symbol_alignment,
            old(self).decoded is Some ==> *final(self) == *old(self),
            old(self).decoded is None && !(payload@.len() == old(self).encoding_symbol_length
                && esi < 0x0100_0000) ==> *final(self) == *old(self),
            old(self).decoded is None && payload@.len() == old(self).encoding_symbol_length && esi
                < 0x0100_0000 ==> {
                &&& rq_received(final(self).decoder) == (if rq_received(
                    old(self).decoder,
                ).dom().contains(esi) {
                    rq_received(old(self).decoder)
                } else {
                    rq_received(old(self).decoder).insert(esi, payload@)
                })
                &&& (final(self).decoded is None ==> final(self).decoded == old(self).decoded)
            },
    {
        if self.decoded.is_some() {
            return ;
        }
        if payload.len() != self.encoding_symbol_length || esi >= 0x0100_0000 {
            return ;
        }
        let r = rq_push_decode(&mut self.decoder, self.sbn, esi, payload);
        proof {
            lemma_mul_upper_bound(
                self.nb_source_symbols as int,
                RAPTORQ_MAX_SOURCE_SYMBOLS as int,
                self.encoding_symbol_length as int,
                0xFFFF,
            );
            lemma_rq_block_symbols(
                self.nb_source_symbols as int,
                self.encoding_symbol_length as int,
            );
        }
        match r {
            Some(v) => {
                proof {
                    let esl = self.encoding_symbol_length as int;
                    let sub = self.sub_blocks_length as int;
                    let al = self.symbol_alignment as int;
                    assert forall|block: Seq<u8>|
                        block.len() == v@.len() && #[trigger] rq_consistent(
                            esl,
                            sub,
                            al,
                            rq_received(self.decoder),
                            block,
                        ) implies v@ == block by {
                        assert(block.take(block.len() as int) =~= block);
                        assert(v@ == block.take(block.len() as int));
                    }
                }
                self.decoded = Some(v);
            },
            None => {},
        }
    }

    /// Whether the block has been decoded.
    pub fn can_decode(&self) -> (r: bool)
        ensures
            r == (self.decoded is Some),
    {
        self.decoded.is_some()
    }

    /// Whether the block has been decoded (the fountain decode happens as
    /// symbols arrive).
    pub fn decode(&mut self) -> (r: bool)
        ensures
            *final(self) == *old(self),
            r == (old(self).decoded is Some),
    {
        self.decoded.is_some()
    }

    /// The padded reassembled block, once decoded.
    pub fn source_block(&self) -> (r: Option<&Vec<u8>>)
        ensures
            r == match self.decoded {
                Some(_) => Some(&self.decoded->0),
                None => None::<&Vec<u8>>,
            },
            self.decoded matches Some(d) ==> r matches Some(v) && v@ == d@,
    {
        self.decoded.as_ref()
    }
}

/// A block of `k` whole symbols of `e` bytes holds exactly `k` symbols.
proof fn lemma_rq_block_symbols(k: int, e: int)
    requires
        k >= 1,
        e >= 1,
    ensures
        spec_div_ceil(k * e, e) == k,
{
    vstd::arithmetic::div_mod::lemma_mod_multiples_basic(k, e);
    vstd::arithmetic::div_mod::lemma_div_multiples_vanish(k, e);
    assert(k * e == e * k) by (nonlinear_arith);
}

} // verus!
