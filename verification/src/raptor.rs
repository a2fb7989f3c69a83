//! Raptor (RFC 5053) block decoding.
//!
//! The fountain decoding is done by the `raptor-code` crate behind trusted
//! items; the received-symbol bookkeeping and the meaning of a successful
//! decode are stated over the names below and verified around them.

use crate::errors::{ErrorKind, FluteError};
use crate::oti::RAPTOR_MAX_SOURCE_SYMBOLS;
use vstd::arithmetic::mul::lemma_mul_upper_bound;
use vstd::prelude::*;

verus! {

/// Encoding symbol `esi` of a source block of `k` source symbols under
/// Raptor: a function of the block bytes alone (RFC 5053 is deterministic).
pub uninterp spec fn raptor_symbol(k: int, block: Seq<u8>, esi: int) -> Seq<u8>;

#[verifier::external_type_specification]
#[verifier::external_body]
pub struct ExRaptorSourceBlockDecoder(raptor_code::SourceBlockDecoder);

/// The symbols a `raptor_code::SourceBlockDecoder` has been fed, in order.
pub uninterp spec fn raptor_received(d: raptor_code::SourceBlockDecoder) -> Seq<(u32, Seq<u8>)>;

/// The source-symbol count the decoder was built for.
pub uninterp spec fn raptor_k(d: raptor_code::SourceBlockDecoder) -> int;

/// Relies on `raptor_code::SourceBlockDecoder::new`: a fresh decoder for one
/// block of `nb_source_symbols` source symbols, with nothing received.
#[verifier::external_body]
fn raptor_new_decoder(nb_source_symbols: usize) -> (r: raptor_code::SourceBlockDecoder)
    requires
        1 <= nb_source_symbols <= RAPTOR_MAX_SOURCE_SYMBOLS,
    ensures
        raptor_received(r).len() == 0,
        raptor_k(r) == nb_source_symbols,
{
    raptor_code::SourceBlockDecoder::new(nb_source_symbols)
}

/// Relies on `raptor_code::SourceBlockDecoder::push_encoding_symbol`: records
/// one received symbol.
#[verifier::external_body]
fn raptor_push(d: &mut raptor_code::SourceBlockDecoder, payload: &[u8], esi: u32)
    ensures
        raptor_k(*final(d)) == raptor_k(*old(d)),
        raptor_received(*final(d)) == raptor_received(*old(d)).push((esi, payload@)),
{
    d.push_encoding_symbol(payload, esi)
}

/// Relies on `raptor_code::SourceBlockDecoder::fully_specified`: whether the
/// symbols seen so far determine the block. Nothing is promised of the
/// answer; a decode attempt settles it.
#[verifier::external_body]
fn raptor_fully_specified(d: &raptor_code::SourceBlockDecoder) -> bool {
    d.fully_specified()
}

/// Relies on `raptor_code::SourceBlockDecoder::decode`: when decoding
/// succeeds, the `block_size` bytes returned are the one source block every
/// received symbol is an encoding of. `symbol_length` anchors the uniform
/// symbol size the decoder was fed.
#[verifier::external_body]
fn raptor_decode(
    d: &mut raptor_code::SourceBlockDecoder,
    block_size: usize,
    symbol_length: usize,
) -> (r: Option<Vec<u8>>)
    requires
        symbol_length >= 1,
        forall|j: int|
            0 <= j < raptor_received(*old(d)).len() ==> (#[trigger] raptor_received(
                *old(d),
            )[j]).1.len() == symbol_length,
        raptor_k(*old(d)) >= 1,
        1 <= block_size <= raptor_k(*old(d)) * symbol_length,
    ensures
        raptor_k(*final(d)) == raptor_k(*old(d)),
        raptor_received(*final(d)) == raptor_received(*old(d)),
        r matches Some(v) ==> {
            &&& v@.len() == block_size
            &&& forall|block: Seq<u8>|
                block.len() == block_size && (forall|j: int|
                    0 <= j < raptor_received(*final(d)).len()
                        ==> (#[trigger] raptor_received(*final(d))[j]).1 == raptor_symbol(
                        raptor_k(*old(d)),
                        block,
                        raptor_received(*final(d))[j].0 as int,
                    )) ==> v@ == #[trigger] block.take(block.len() as int)
        },
{
    d.decode(block_size)
}

/// Every received symbol agrees with the Raptor encoding of `block`.
pub open spec fn raptor_consistent(
    k: int,
    received: Seq<(u32, Seq<u8>)>,
    block: Seq<u8>,
) -> bool {
    forall|j: int|
        0 <= j < received.len() ==> (#[trigger] received[j]).1 == raptor_symbol(
            k,
            block,
            received[j].0 as int,
        )
}

/// Raptor block decoder: accumulates symbols and exposes the block once the
/// fountain decode goes through.
pub struct RaptorDecoder {
    /// Source symbols of the block.
    pub nb_source_symbols: usize,
    /// Bytes of the source block.
    pub block_size: usize,
    /// Bytes per symbol.
    pub encoding_symbol_length: usize,
    /// The fountain decoder.
    pub decoder: raptor_code::SourceBlockDecoder,
    /// The reassembled block, once decoded.
    pub decoded: Option<Vec<u8>>,
}

impl RaptorDecoder {
    /// The decoder's invariant.
    pub open spec fn wf(&self) -> bool {
        &&& 1 <= self.nb_source_symbols <= RAPTOR_MAX_SOURCE_SYMBOLS
        &&& 1 <= self.encoding_symbol_length
        &&& 1 <= self.block_size <= self.nb_source_symbols as int
            * self.encoding_symbol_length as int
        &&& raptor_k(self.decoder) == self.nb_source_symbols
        &&& forall|j: int|
            0 <= j < raptor_received(self.decoder).len() ==> (#[trigger] raptor_received(
                self.decoder,
            )[j]).1.len() == self.encoding_symbol_length
        &&& (self.decoded matches Some(v) ==> {
            &&& v@.len() == self.block_size
            &&& forall|block: Seq<u8>|
                block.len() == self.block_size && #[trigger] raptor_consistent(
                    self.nb_source_symbols as int,
                    raptor_received(self.decoder),
                    block,
                ) ==> v@ == block
        })
    }

    /// A fresh decoder for one block of `nb_source_symbols` symbols of
    /// `encoding_symbol_length` bytes, holding `block_size` bytes in all.
    /// Rejects parameters RFC 5053 cannot carry.
    pub fn new(nb_source_symbols: usize, block_size: usize, encoding_symbol_length: usize) -> (r:
        Result<RaptorDecoder, FluteError>)
        ensures
            r is Ok <==> (1 <= nb_source_symbols <= RAPTOR_MAX_SOURCE_SYMBOLS && 1
                <= encoding_symbol_length && 1 <= block_size && block_size as int
                <= nb_source_symbols as int * encoding_symbol_length as int),
            r matches Ok(c) ==> {
                &&& c.wf()
                &&& c.nb_source_symbols == nb_source_symbols
                &&& c.block_size == block_size
                &&& c.encoding_symbol_length == encoding_symbol_length
                &&& c.decoded is None
                &&& raptor_received(c.decoder).len() == 0
            },
            r matches Err(e) ==> e.kind == ErrorKind::Codec,
    {
        if nb_source_symbols == 0 || nb_source_symbols > RAPTOR_MAX_SOURCE_SYMBOLS as usize {
            return Err(FluteError::new(ErrorKind::Codec, "bad Raptor source block length"));
        }
        if encoding_symbol_length == 0 || block_size == 0 {
            return Err(FluteError::new(ErrorKind::Codec, "bad Raptor block parameters"));
        }
        proof {
            lemma_mul_upper_bound(
                nb_source_symbols as int,
                RAPTOR_MAX_SOURCE_SYMBOLS as int,
                encoding_symbol_length as int,
                usize::MAX as int,
            );
        }
        let symbol_capacity: u128 = (nb_source_symbols as u128) * (encoding_symbol_length as u128);
        if (block_size as u128) > symbol_capacity {
            return Err(FluteError::new(ErrorKind::Codec, "Raptor block larger than its symbols"));
        }
        let decoder = raptor_new_decoder(nb_source_symbols);
        Ok(
            RaptorDecoder {
                nb_source_symbols,
                block_size,
                encoding_symbol_length,
                decoder,
                decoded: None,
            },
        )
    }

    /// Feed one received symbol and attempt the decode when the block has
    /// become fully specified. A symbol of the wrong length or one arriving
    /// after completion changes nothing.
    pub fn push_symbol(&mut self, payload: &[u8], esi: u32)
        requires
            old(self).wf(),
        ensures
            final(self).wf(),
            final(self).nb_source_symbols == old(self).nb_source_symbols,
            final(self).block_size == old(self).block_size,
            final(self).encoding_symbol_length == old(self).encoding_symbol_length,
            old(self).decoded is Some ==> final(self).decoded == old(self).decoded
                && raptor_received(final(self).decoder) == raptor_received(old(self).decoder),
            old(self).decoded is None && payload@.len() != old(self).encoding_symbol_length
                ==> *final(self) == *old(self),
            old(self).decoded is None && payload@.len() == old(self).encoding_symbol_length ==> {
                &&& raptor_received(final(self).decoder) == raptor_received(
                    old(self).decoder,
                ).push((esi, payload@))
                &&& (final(self).decoded is None ==> final(self).decoded == old(self).decoded)
            },
    {
        if self.decoded.is_some() {
            return ;
        }
        if payload.len() != self.encoding_symbol_length {
            return ;
        }
        raptor_push(&mut self.decoder, payload, esi);
        if raptor_fully_specified(&self.decoder) {
            let r = raptor_decode(&mut self.decoder, self.block_size, self.encoding_symbol_length);
            match r {
                Some(v) => {
                    proof {
                        assert forall|block: Seq<u8>|
                            block.len() == self.block_size && #[trigger] raptor_consistent(
                                self.nb_source_symbols as int,
                                raptor_received(self.decoder),
                                block,
                            ) implies v@ == block by {
                            assert(block.take(block.len() as int) =~= block);
                            assert(v@ == block.take(block.len() as int));
                        }
                    }
                    self.decoded = Some(v);
                },
                None => {},
            }
        }
    }

    /// Whether the block has been decoded.
    pub fn can_decode(&self) -> (r: bool)
        ensures
            r == (self.decoded is Some),
    {
        self.decoded.is_some()
    }

    /// Whether the block has been decoded (the fountain decode happens as
    /// symbols arrive).
    pub fn decode(&mut self) -> (r: bool)
        ensures
            *final(self) == *old(self),
            r == (old(self).decoded is Some),
    {
        self.decoded.is_some()
    }

    /// The reassembled block, once decoded.
    pub fn source_block(&self) -> (r: Option<&Vec<u8>>)
        ensures
            r == match self.decoded {
                Some(_) => Some(&self.decoded->0),
                None => None::<&Vec<u8>>,
            },
            self.decoded matches Some(d) ==> r matches Some(v) && v@ == d@,
    {
        self.decoded.as_ref()
    }
}

} // verus!
