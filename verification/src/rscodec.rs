//! Systematic Reed-Solomon over GF(2^8).
//!
//! A block of `k` source symbols is published together with `r` parity
//! symbols; the decoder rebuilds the block from any `k` received symbols.
//! The Galois-field arithmetic itself is done by the `reed-solomon-erasure`
//! crate behind one trusted wrapper; everything around it is verified against
//! the codeword model below.

use crate::errors::{ErrorKind, FluteError};
use crate::fec::{concat_all, count_present, count_present_slots, lemma_concat_all_all,
    lemma_concat_all_take, unwrap_view};
use vstd::prelude::*;

verus! {

/// The `r` parity symbols the scheme derives from `k` source symbols of
/// `symbol_length` bytes each. Stands for the parity rows of the
/// `reed-solomon-erasure` code; a function of the data alone.
pub uninterp spec fn rs_parity(k: int, r: int, symbol_length: int, data: Seq<Seq<u8>>) -> Seq<
    Seq<u8>,
>;

/// A source block in symbol form: `k` symbols of `symbol_length` bytes.
pub open spec fn rs_data_wf(k: int, symbol_length: int, data: Seq<Seq<u8>>) -> bool {
    &&& data.len() == k
    &&& forall|i: int| 0 <= i < k ==> #[trigger] data[i].len() == symbol_length
}

/// Symbol `i` of the codeword of `data`: the data itself for `i < k`, the
/// parity symbols after it.
pub open spec fn rs_codeword_symbol(
    k: int,
    r: int,
    symbol_length: int,
    data: Seq<Seq<u8>>,
    i: int,
) -> Seq<u8> {
    if i < k {
        data[i]
    } else {
        rs_parity(k, r, symbol_length, data)[i - k]
    }
}

/// Every received shard agrees with the codeword of `data`.
pub open spec fn rs_consistent(
    k: int,
    r: int,
    symbol_length: int,
    shards: Seq<Option<Seq<u8>>>,
    data: Seq<Seq<u8>>,
) -> bool {
    &&& rs_data_wf(k, symbol_length, data)
    &&& forall|i: int|
        0 <= i < shards.len() && shards[i] is Some ==> (#[trigger] shards[i])->0
            == rs_codeword_symbol(k, r, symbol_length, data, i)
}

/// Relies on `reed_solomon_erasure::galois_8::ReedSolomon`: `new(k, r)`
/// accepts `1 <= k`, `1 <= r`, `k + r <= 256`; `reconstruct` succeeds exactly
/// when at least `k` of the `k + r` equal-length shards are present, rebuilds
/// every missing shard of the codeword — returning the data shards to their
/// original values — leaves present shards as they are, and touches nothing
/// on error.
#[verifier::external_body]
fn rs_reconstruct(k: usize, r: usize, symbol_length: usize, shards: &mut Vec<Option<Vec<u8>>>) -> (
    ok: bool)
    requires
        1 <= k,
        1 <= r,
        k + r <= 255,
        old(shards)@.len() == k + r,
        symbol_length >= 1,
        forall|i: int|
            0 <= i < old(shards)@.len() && old(shards)@[i] is Some ==> (#[trigger] old(
                shards,
            )@[i])->0@.len() == symbol_length,
    ensures
        ok == (count_present(old(shards)@) >= k),
        ok ==> final(shards)@.len() == k + r,
        ok ==> forall|i: int|
            0 <= i < k + r ==> ((#[trigger] final(shards)@[i]) matches Some(v) && v@.len()
                == symbol_length),
        ok ==> forall|i: int|
            0 <= i < k + r && old(shards)@[i] is Some ==> (#[trigger] final(shards)@[i])->0@ == (
            old(shards)@[i])->0@,
        ok ==> forall|d: Seq<Seq<u8>>|
            #[trigger] rs_consistent(
                k as int,
                r as int,
                symbol_length as int,
                crate::fec::table_view(old(shards)@),
                d,
            ) ==> forall|i: int| 0 <= i < k ==> (#[trigger] final(shards)@[i])->0@ == d[i],
        ok ==> forall|d: Seq<Seq<u8>>|
            #[trigger] rs_consistent(
                k as int,
                r as int,
                symbol_length as int,
                crate::fec::table_view(old(shards)@),
                d,
            ) ==> forall|i: int|
                k <= i < k + r ==> (#[trigger] final(shards)@[i])->0@ == rs_parity(
                    k as int,
                    r as int,
                    symbol_length as int,
                    d,
                )[i - k],
        !ok ==> final(shards)@ == old(shards)@,
{
    match reed_solomon_erasure::galois_8::ReedSolomon::new(k, r) {
        Ok(rs) => rs.reconstruct(shards.as_mut_slice()).is_ok(),
        Err(_) => false,
    }
}

/// Reed-Solomon GF(2^8) block decoder.
#[derive(Debug)]
pub struct RsGalois8Codec {
    /// `k`: source symbols per block.
    pub nb_source_symbols: usize,
    /// `r`: parity symbols per block.
    pub nb_parity_symbols: usize,
    /// Bytes per symbol; every shard of a block has this exact length.
    pub encoding_symbol_length: usize,
    /// Received shards, indexed by ESI: sources first, then parity.
    pub shards: Vec<Option<Vec<u8>>>,
    /// The reassembled block (k * symbol_length bytes), once decoded.
    pub decoded: Option<Vec<u8>>,
}

impl RsGalois8Codec {
    /// The decoder's invariant.
    pub open spec fn wf(&self) -> bool {
        &&& 1 <= self.nb_source_symbols
        &&& 1 <= self.nb_parity_symbols
        &&& self.nb_source_symbols + self.nb_parity_symbols <= 255
        &&& 1 <= self.encoding_symbol_length
        &&& self.shards@.len() == self.nb_source_symbols + self.nb_parity_symbols
        &&& forall|i: int|
            0 <= i < self.shards@.len() && self.shards@[i] is Some
                ==> (#[trigger] self.shards@[i])->0@.len() == self.encoding_symbol_length
        &&& (self.decoded matches Some(d) ==> d@.len() == self.nb_source_symbols as int
            * self.encoding_symbol_length as int)
    }

    /// A fresh decoder for `k` source and `r` parity symbols of
    /// `encoding_symbol_length` bytes. Rejects parameters the GF(2^8) code
    /// cannot carry.
    pub fn new(
        nb_source_symbols: usize,
        nb_parity_symbols: usize,
        encoding_symbol_length: usize,
    ) -> (r: Result<RsGalois8Codec, FluteError>)
        ensures
            r is Ok <==> (1 <= nb_source_symbols && 1 <= nb_parity_symbols && nb_source_symbols
                + nb_parity_symbols <= 255 && 1 <= encoding_symbol_length),
            r matches Ok(c) ==> {
                &&& c.wf()
                &&& c.nb_source_symbols == nb_source_symbols
                &&& c.nb_parity_symbols == nb_parity_symbols
                &&& c.encoding_symbol_length == encoding_symbol_length
                &&& forall|i: int| 0 <= i < c.shards@.len() ==> c.shards@[i] is None
                &&& c.decoded is None
            },
            r matches Err(e) ==> e.kind == ErrorKind::Codec,
    {
        if nb_source_symbols == 0 || nb_parity_symbols == 0 || encoding_symbol_length == 0 {
            return Err(
                FluteError::new(ErrorKind::Codec, "Reed-Solomon parameters must not be zero"),
            );
        }
        if nb_source_symbols > 255 || nb_parity_symbols > 255 || nb_source_symbols
            + nb_parity_symbols > 255 {
            return Err(
                FluteError::new(ErrorKind::Codec, "source plus parity symbols must not exceed 255"),
            );
        }
        let total = nb_source_symbols + nb_parity_symbols;
        let mut shards: Vec<Option<Vec<u8>>> = Vec::new();
        let mut i: usize = 0;
        while i < total
            invariant
                0 <= i <= total,
                shards@.len() == i,
                forall|j: int| 0 <= j < i ==> shards@[j] is None,
            decreases total - i,
        {
            shards.push(None);
            i += 1;
        }
        Ok(
            RsGalois8Codec {
                nb_source_symbols,
                nb_parity_symbols,
                encoding_symbol_length,
                shards,
                decoded: None,
            },
        )
    }

    /// Record one received symbol. A symbol with an out-of-range ESI, a wrong
    /// length, or for a slot already filled is ignored, so duplicates and
    /// reordering cannot change the table.
    pub fn push_symbol(&mut self, payload: &[u8], esi: u32)
        requires
            old(self).wf(),
        ensures
            final(self).wf(),
            final(self).decoded == old(self).decoded,
            final(self).nb_source_symbols == old(self).nb_source_symbols,
            final(self).nb_parity_symbols == old(self).nb_parity_symbols,
            final(self).encoding_symbol_length == old(self).encoding_symbol_length,
            final(self).shards@.len() == old(self).shards@.len(),
            esi < old(self).shards@.len() && payload@.len() == old(self).encoding_symbol_length
                && old(self).shards@[esi as int] is None ==> {
                &&& final(self).shards@[esi as int] matches Some(v) && v@ == payload@
                &&& forall|i: int|
                    0 <= i < final(self).shards@.len() && i != esi as int
                        ==> final(self).shards@[i] == old(self).shards@[i]
            },
            !(esi < old(self).shards@.len() && payload@.len() == old(self).encoding_symbol_length
                && old(self).shards@[esi as int] is None) ==> final(self).shards@ == old(
                self,
            ).shards@,
    {
        if (esi as usize) < self.shards.len() && payload.len() == self.encoding_symbol_length {
            if self.shards[esi as usize].is_none() {
                let mut owned: Vec<u8> = Vec::new();
                owned.extend_from_slice(payload);
                self.shards.set(esi as usize, Some(owned));
            }
        }
    }

    /// Whether enough symbols arrived to attempt a decode: at least `k`.
    pub fn can_decode(&self) -> (r: bool)
        ensures
            r == (count_present(self.shards@) >= self.nb_source_symbols),
    {
        count_present_slots(&self.shards) >= self.nb_source_symbols
    }

    /// Rebuild the source block. Succeeds exactly when at least `k` symbols
    /// of the block's codeword have been received, and then the reassembled
    /// bytes equal the original block for every block the received symbols
    /// are consistent with: losing any `r` of the `k + r` symbols is harmless.
    pub fn decode(&mut self) -> (r: bool)
        requires
            old(self).wf(),
        ensures
            final(self).wf(),
            final(self).nb_source_symbols == old(self).nb_source_symbols,
            final(self).nb_parity_symbols == old(self).nb_parity_symbols,
            final(self).encoding_symbol_length == old(self).encoding_symbol_length,
            r == (count_present(old(self).shards@) >= old(self).nb_source_symbols),
            r ==> (final(self).decoded matches Some(v) && v@.len() == old(self).nb_source_symbols
                as int * old(self).encoding_symbol_length as int && forall|d: Seq<Seq<u8>>|
                #[trigger] rs_consistent(
                    old(self).nb_source_symbols as int,
                    old(self).nb_parity_symbols as int,
                    old(self).encoding_symbol_length as int,
                    crate::fec::table_view(old(self).shards@),
                    d,
                ) ==> v@ == concat_all(d)),
            !r ==> final(self).shards@ == old(self).shards@ && final(self).decoded == old(
                self,
            ).decoded,
    {
        let k = self.nb_source_symbols;
        let parity = self.nb_parity_symbols;
        let e = self.encoding_symbol_length;
        let present = count_present_slots(&self.shards);
        if present < k {
            return false;
        }
        let ghost shards_before = crate::fec::table_view(self.shards@);
        let ok = rs_reconstruct(k, parity, e, &mut self.shards);
        if !ok {
            return false;
        }
        let mut out: Vec<u8> = Vec::new();
        let mut i: usize = 0;
        while i < k
            invariant
                0 <= i <= k,
                k <= self.shards@.len(),
                forall|j: int|
                    0 <= j < self.shards@.len() ==> ((#[trigger] self.shards@[j]) matches Some(v)
                        && v@.len() == e),
                out@ == concat_all(unwrap_view(self.shards@).take(i as int)),
                out@.len() == i * e,
            decreases k - i,
        {
            proof {
                lemma_concat_all_take(unwrap_view(self.shards@), i as int);
                assert((i + 1) * e == i * e + e) by (nonlinear_arith);
            }
            match &self.shards[i] {
                Some(v) => {
                    out.extend_from_slice(v.as_slice());
                },
                None => {
                    proof {
                        assert(false);
                    }
                },
            }
            i += 1;
        }
        proof {
            let kk = k as int;
            let first_k = unwrap_view(self.shards@).take(kk);
            assert forall|d: Seq<Seq<u8>>|
                #[trigger] rs_consistent(
                    kk,
                    parity as int,
                    e as int,
                    shards_before,
                    d,
                ) implies out@ == concat_all(d) by {
                assert(first_k =~= d);
            }
        }
        self.decoded = Some(out);
        true
    }

    /// The reassembled block, when decoding has finished.
    pub fn source_block(&self) -> (r: Option<&Vec<u8>>)
        ensures
            r == match self.decoded {
                Some(_) => Some(&self.decoded->0),
                None => None::<&Vec<u8>>,
            },
            self.decoded matches Some(d) ==> r matches Some(v) && v@ == d@,
    {
        self.decoded.as_ref()
    }
}

} // verus!
