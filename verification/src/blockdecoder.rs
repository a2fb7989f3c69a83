//! Per-block symbol accumulator: owns one FEC decoder, feeds received symbols
//! into it, and flips to `completed` once the block is reassembled.

use crate::alc::{AlcPkt, PayloadID};
use crate::errors::{ErrorKind, FluteError};
use crate::fec::{concat_all, count_filled, lemma_count_filled_view, table_view, unwrap_view};
use crate::nocode::NoCodeDecoder;
use crate::oti::{FECEncodingID, Oti, SchemeSpecific};
use crate::raptor::{raptor_consistent, raptor_received, RaptorDecoder};
use crate::rq::{rq_consistent, rq_received, RaptorQDecoder};
use crate::rscodec::{rs_consistent, RsGalois8Codec};
use vstd::prelude::*;
use vstd::slice::slice_subrange;

verus! {

/// The concrete FEC decoder behind a block, selected by the OTI.
pub enum FecDecoderKind {
    /// Compact No-Code.
    NoCode(NoCodeDecoder),
    /// Reed-Solomon GF(2^8), either variant.
    ReedSolomon(RsGalois8Codec),
    /// RaptorQ (RFC 6330).
    RaptorQ(RaptorQDecoder),
    /// Raptor (RFC 5053).
    Raptor(RaptorDecoder),
}

/// A symbol table after one reception: the slot at `esi` filled with the
/// payload when the decoder accepts the symbol, the table unchanged otherwise.
pub open spec fn pushed_table(
    table: Seq<Option<Vec<u8>>>,
    accept: bool,
    esi: u32,
    payload: Seq<u8>,
) -> Seq<Option<Seq<u8>>> {
    if accept {
        table_view(table).update(esi as int, Some(payload))
    } else {
        table_view(table)
    }
}

/// One source block of one object on the receive side.
pub struct BlockDecoder {
    /// Whether the block has been fully reassembled.
    pub completed: bool,
    /// Whether `init` has chosen and sized a decoder.
    pub initialized: bool,
    /// Size of this block in bytes (the last block of an object may be
    /// smaller than a full block).
    pub block_size: usize,
    /// The FEC decoder; `None` before `init` and after `deallocate`.
    pub decoder: Option<FecDecoderKind>,
}

impl BlockDecoder {
    /// Invariant: whatever decoder is present is itself well formed.
    pub open spec fn wf(&self) -> bool {
        match self.decoder {
            Some(FecDecoderKind::NoCode(d)) => d.wf(),
            Some(FecDecoderKind::ReedSolomon(c)) => c.wf(),
            Some(FecDecoderKind::RaptorQ(c)) => c.wf(),
            Some(FecDecoderKind::Raptor(c)) => c.wf(),
            None => true,
        }
    }

    /// Whether the decoder would accept a symbol: the ESI names a free slot
    /// (and, for Reed-Solomon, the payload has the exact symbol length).
    pub open spec fn accepts(&self, payload: Seq<u8>, esi: u32) -> bool {
        match self.decoder {
            Some(FecDecoderKind::NoCode(d)) => esi < d.symbols@.len() && d.symbols@[esi as int]
                is None,
            Some(FecDecoderKind::ReedSolomon(c)) => esi < c.shards@.len() && payload.len()
                == c.encoding_symbol_length && c.shards@[esi as int] is None,
            Some(FecDecoderKind::RaptorQ(c)) => c.decoded is None && payload.len()
                == c.encoding_symbol_length && esi < 0x0100_0000 && !rq_received(
                c.decoder,
            ).dom().contains(esi),
            Some(FecDecoderKind::Raptor(c)) => c.decoded is None && payload.len()
                == c.encoding_symbol_length,
            None => false,
        }
    }

    /// The reassembled block bytes, once a decoder has finished.
    pub open spec fn decoded_bytes(&self) -> Option<Seq<u8>> {
        match self.decoder {
            Some(FecDecoderKind::NoCode(d)) => match d.decoded {
                Some(b) => Some(b@),
                None => None,
            },
            Some(FecDecoderKind::ReedSolomon(c)) => match c.decoded {
                Some(b) => Some(b@),
                None => None,
            },
            Some(FecDecoderKind::RaptorQ(c)) => match c.decoded {
                Some(b) => Some(b@),
                None => None,
            },
            Some(FecDecoderKind::Raptor(c)) => match c.decoded {
                Some(b) => Some(b@),
                None => None,
            },
            None => None,
        }
    }

    /// A block not yet initialized.
    pub fn new() -> (r: BlockDecoder)
        ensures
            r.wf(),
            !r.completed,
            !r.initialized,
            r.block_size == 0,
            r.decoder is None,
    {
        BlockDecoder { completed: false, initialized: false, block_size: 0, decoder: None }
    }

    /// Choose and size the FEC decoder for this block from the object's OTI.
    /// A second call is a no-op. Parameters a scheme cannot carry, and a
    /// fountain OTI without its scheme-specific block, are rejected with a
    /// `Codec` error.
    pub fn init(&mut self, oti: &Oti, nb_source_symbols: u32, block_size: usize, sbn: u32) -> (r:
        Result<(), FluteError>)
        requires
            old(self).wf(),
        ensures
            final(self).wf(),
            old(self).initialized ==> r is Ok && *final(self) == *old(self),
            !old(self).initialized ==> final(self).completed == old(self).completed,
            !old(self).initialized && r is Ok ==> final(self).initialized && final(self).block_size
                == block_size,
            !old(self).initialized ==> match oti.fec_encoding_id {
                FECEncodingID::NoCode => r is Ok && (final(self).decoder matches Some(
                    FecDecoderKind::NoCode(d),
                ) && d.symbols@.len() == nb_source_symbols && (forall|i: int|
                    0 <= i < d.symbols@.len() ==> d.symbols@[i] is None) && d.decoded is None),
                FECEncodingID::ReedSolomonGF28 | FECEncodingID::ReedSolomonGF28UnderSpecified => {
                    &&& (r is Ok <==> (1 <= nb_source_symbols && 1
                        <= oti.max_number_of_parity_symbols && nb_source_symbols as int
                        + oti.max_number_of_parity_symbols as int <= 255 && 1
                        <= oti.encoding_symbol_length))
                    &&& (r is Ok ==> (final(self).decoder matches Some(
                        FecDecoderKind::ReedSolomon(c),
                    ) && c.nb_source_symbols == nb_source_symbols && c.nb_parity_symbols
                        == oti.max_number_of_parity_symbols && c.encoding_symbol_length
                        == oti.encoding_symbol_length && (forall|i: int|
                        0 <= i < c.shards@.len() ==> c.shards@[i] is None) && c.decoded is None))
                },
                FECEncodingID::RaptorQ => {
                    &&& (r is Ok <==> (oti.scheme_specific matches Some(SchemeSpecific::RaptorQ(sp))
                        && 1 <= nb_source_symbols
                        && nb_source_symbols <= crate::oti::RAPTORQ_MAX_SOURCE_SYMBOLS && 1
                        <= oti.encoding_symbol_length && sp.symbol_alignment >= 1
                        && oti.encoding_symbol_length as int % sp.symbol_alignment as int == 0
                        && sp.sub_blocks_length >= 1 && sbn <= 0xFF))
                    &&& (r is Ok ==> (final(self).decoder matches Some(FecDecoderKind::RaptorQ(c))
                        && c.wf() && c.nb_source_symbols == nb_source_symbols
                        && c.encoding_symbol_length == oti.encoding_symbol_length && c.sbn == sbn
                        && c.decoded is None))
                },
                FECEncodingID::Raptor => {
                    &&& (r is Ok <==> (oti.scheme_specific matches Some(SchemeSpecific::Raptor(sp))
                        && 1 <= nb_source_symbols
                        && nb_source_symbols <= crate::oti::RAPTOR_MAX_SOURCE_SYMBOLS && 1
                        <= oti.encoding_symbol_length && 1 <= block_size && block_size as int
                        <= nb_source_symbols as int * oti.encoding_symbol_length as int))
                    &&& (r is Ok ==> (final(self).decoder matches Some(FecDecoderKind::Raptor(c))
                        && c.wf() && c.nb_source_symbols == nb_source_symbols && c.block_size
                        == block_size && c.encoding_symbol_length == oti.encoding_symbol_length
                        && c.decoded is None))
                },
            },
            r matches Err(e) ==> e.kind == ErrorKind::Codec && *final(self) == *old(self),
    {
        if self.initialized {
            return Ok(());
        }

        match oti.fec_encoding_id {
            FECEncodingID::NoCode => {
                let codec = NoCodeDecoder::new(nb_source_symbols as usize);
                self.decoder = Some(FecDecoderKind::NoCode(codec));
            },
            FECEncodingID::ReedSolomonGF28 | FECEncodingID::ReedSolomonGF28UnderSpecified => {
                let codec = match RsGalois8Codec::new(
                    nb_source_symbols as usize,
                    oti.max_number_of_parity_symbols as usize,
                    oti.encoding_symbol_length as usize,
                ) {
                    Ok(c) => c,
                    Err(e) => {
                        return Err(e);
                    },
                };
                self.decoder = Some(FecDecoderKind::ReedSolomon(codec));
            },
            FECEncodingID::RaptorQ => {
                let scheme = match &oti.scheme_specific {
                    Some(SchemeSpecific::RaptorQ(s)) => s,
                    _ => {
                        return Err(FluteError::new(ErrorKind::Codec, "RaptorQ scheme not found"));
                    },
                };
                let codec = match RaptorQDecoder::new(
                    sbn,
                    nb_source_symbols as usize,
                    oti.encoding_symbol_length as usize,
                    scheme,
                ) {
                    Ok(c) => c,
                    Err(e) => {
                        return Err(e);
                    },
                };
                self.decoder = Some(FecDecoderKind::RaptorQ(codec));
            },
            FECEncodingID::Raptor => {
                match &oti.scheme_specific {
                    Some(SchemeSpecific::Raptor(_)) => {},
                    _ => {
                        return Err(FluteError::new(ErrorKind::Codec, "Raptor scheme not found"));
                    },
                }
                let codec = match RaptorDecoder::new(
                    nb_source_symbols as usize,
                    block_size,
                    oti.encoding_symbol_length as usize,
                ) {
                    Ok(c) => c,
                    Err(e) => {
                        return Err(e);
                    },
                };
                self.decoder = Some(FecDecoderKind::Raptor(codec));
            },
        }

        self.initialized = true;
        self.block_size = block_size;
        Ok(())
    }

    /// Feed one received symbol to the decoder and reassemble the block as
    /// soon as it can be. A packet that arrives after completion, repeats a
    /// received ESI, or does not fit the decoder leaves the state unchanged,
    /// so duplicated and reordered packets are harmless.
    pub fn push(&mut self, pkt: &AlcPkt, payload_id: &PayloadID)
        requires
            old(self).wf(),
            old(self).initialized,
            pkt.wf(),
            !old(self).completed ==> old(self).decoder is Some,
        ensures
            final(self).wf(),
            final(self).initialized,
            final(self).block_size == old(self).block_size,
            old(self).completed ==> *final(self) == *old(self),
            !old(self).completed ==> match (old(self).decoder, final(self).decoder) {
                (Some(FecDecoderKind::NoCode(d0)), Some(FecDecoderKind::NoCode(d1))) => {
                    &&& table_view(d1.symbols@) == pushed_table(
                        d0.symbols@,
                        old(self).accepts(pkt.payload(), payload_id.esi),
                        payload_id.esi,
                        pkt.payload(),
                    )
                    &&& final(self).completed == d1.all_received()
                    &&& (final(self).completed ==> (d1.decoded matches Some(b) && b@ == concat_all(
                        unwrap_view(d1.symbols@),
                    )))
                },
                (Some(FecDecoderKind::ReedSolomon(c0)), Some(FecDecoderKind::ReedSolomon(c1))) => {
                    &&& c1.nb_source_symbols == c0.nb_source_symbols
                    &&& c1.nb_parity_symbols == c0.nb_parity_symbols
                    &&& c1.encoding_symbol_length == c0.encoding_symbol_length
                    &&& final(self).completed == (count_filled(
                        pushed_table(
                            c0.shards@,
                            old(self).accepts(pkt.payload(), payload_id.esi),
                            payload_id.esi,
                            pkt.payload(),
                        ),
                    ) >= c0.nb_source_symbols)
                    &&& (!final(self).completed ==> table_view(c1.shards@) == pushed_table(
                        c0.shards@,
                        old(self).accepts(pkt.payload(), payload_id.esi),
                        payload_id.esi,
                        pkt.payload(),
                    ))
                    &&& (final(self).completed ==> (c1.decoded matches Some(b) && forall|
                        d: Seq<Seq<u8>>,
                    |
                        #[trigger] rs_consistent(
                            c0.nb_source_symbols as int,
                            c0.nb_parity_symbols as int,
                            c0.encoding_symbol_length as int,
                            pushed_table(
                                c0.shards@,
                                old(self).accepts(pkt.payload(), payload_id.esi),
                                payload_id.esi,
                                pkt.payload(),
                            ),
                            d,
                        ) ==> b@ == concat_all(d)))
                },
                (Some(FecDecoderKind::RaptorQ(c0)), Some(FecDecoderKind::RaptorQ(c1))) => {
                    &&& c1.nb_source_symbols == c0.nb_source_symbols
                    &&& c1.encoding_symbol_length == c0.encoding_symbol_length
                    &&& final(self).completed == (c1.decoded is Some)
                    &&& ((forall|i: u32|
                        0 <= i < c0.nb_source_symbols ==> #[trigger] rq_received(
                            c1.decoder,
                        ).dom().contains(i)) ==> final(self).completed)
                    &&& (final(self).completed ==> (c1.decoded matches Some(b) && forall|
                        block: Seq<u8>,
                    |
                        block.len() == c0.nb_source_symbols as int * c0.encoding_symbol_length as int
                            && #[trigger] rq_consistent(
                            c0.encoding_symbol_length as int,
                            c0.sub_blocks_length as int,
                            c0.symbol_alignment as int,
                            rq_received(c1.decoder),
                            block,
                        ) ==> b@ == block))
                },
                (Some(FecDecoderKind::Raptor(c0)), Some(FecDecoderKind::Raptor(c1))) => {
                    &&& c1.nb_source_symbols == c0.nb_source_symbols
                    &&& c1.block_size == c0.block_size
                    &&& c1.encoding_symbol_length == c0.encoding_symbol_length
                    &&& final(self).completed == (c1.decoded is Some)
                    &&& (final(self).completed ==> (c1.decoded matches Some(b) && forall|
                        block: Seq<u8>,
                    |
                        block.len() == c0.block_size && #[trigger] raptor_consistent(
                            c0.nb_source_symbols as int,
                            raptor_received(c1.decoder),
                            block,
                        ) ==> b@ == block))
                },
                _ => false,
            },
    {
        if self.completed {
            return ;
        }
        let ghost pre = *self;

        let payload = slice_subrange(pkt.data.as_slice(), pkt.data_payload_offset, pkt.data.len());
        proof {
            assert(payload@ =~= pkt.payload());
        }
        let ghost updated = match pre.decoder {
            Some(FecDecoderKind::NoCode(d0)) => pushed_table(
                d0.symbols@,
                pre.accepts(pkt.payload(), payload_id.esi),
                payload_id.esi,
                pkt.payload(),
            ),
            Some(FecDecoderKind::ReedSolomon(c0)) => pushed_table(
                c0.shards@,
                pre.accepts(pkt.payload(), payload_id.esi),
                payload_id.esi,
                pkt.payload(),
            ),
            _ => Seq::empty(),
        };

        match &mut self.decoder {
            Some(FecDecoderKind::NoCode(d)) => {
                d.push_symbol(payload, payload_id.esi);
                proof {
                    assert(table_view(d.symbols@) =~= updated);
                }
                if d.can_decode() {
                    self.completed = d.decode();
                }
            },
            Some(FecDecoderKind::ReedSolomon(c)) => {
                c.push_symbol(payload, payload_id.esi);
                proof {
                    assert(table_view(c.shards@) =~= updated);
                    lemma_count_filled_view(c.shards@);
                }
                if c.can_decode() {
                    self.completed = c.decode();
                }
            },
            Some(FecDecoderKind::RaptorQ(c)) => {
                c.push_symbol(payload, payload_id.esi);
                if c.can_decode() {
                    self.completed = c.decode();
                }
            },
            Some(FecDecoderKind::Raptor(c)) => {
                c.push_symbol(payload, payload_id.esi);
                if c.can_decode() {
                    self.completed = c.decode();
                }
            },
            None => {
                proof {
                    assert(false);
                }
            },
        }
    }

    /// The reassembled block bytes.
    pub fn source_block(&self) -> (r: Result<&[u8], FluteError>)
        ensures
            r matches Ok(b) ==> (self.decoded_bytes() matches Some(bytes) && b@ == bytes),
            r is Ok <==> self.decoded_bytes() is Some,
            r matches Err(e) ==> e.kind == ErrorKind::Codec,
    {
        match &self.decoder {
            Some(FecDecoderKind::NoCode(d)) => match d.source_block() {
                Some(b) => Ok(b.as_slice()),
                None => Err(FluteError::new(ErrorKind::Codec, "fail to decode block")),
            },
            Some(FecDecoderKind::ReedSolomon(c)) => match c.source_block() {
                Some(b) => Ok(b.as_slice()),
                None => Err(FluteError::new(ErrorKind::Codec, "fail to decode block")),
            },
            Some(FecDecoderKind::RaptorQ(c)) => match c.source_block() {
                Some(b) => Ok(b.as_slice()),
                None => Err(FluteError::new(ErrorKind::Codec, "fail to decode block")),
            },
            Some(FecDecoderKind::Raptor(c)) => match c.source_block() {
                Some(b) => Ok(b.as_slice()),
                None => Err(FluteError::new(ErrorKind::Codec, "fail to decode block")),
            },
            None => Err(FluteError::new(ErrorKind::Codec, "fail to decode block")),
        }
    }

    /// Release the decoder's memory once the block has been written through.
    pub fn deallocate(&mut self)
        ensures
            final(self).wf(),
            final(self).decoder is None,
            final(self).block_size == 0,
            final(self).completed == old(self).completed,
            final(self).initialized == old(self).initialized,
    {
        self.decoder = None;
        self.block_size = 0;
    }
}

} // verus!
