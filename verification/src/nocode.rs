//! Compact No-Code decoder: the block is complete exactly when every source
//! symbol has arrived; the reassembled block is their in-order concatenation.

use crate::fec::{
    chunk_of, concat_all, lemma_chunks_concat, lemma_concat_all_all, lemma_concat_all_congruence,
    lemma_concat_all_take, unwrap_view,
};
use crate::math::spec_div_ceil;
use vstd::prelude::*;

verus! {

/// Per-block symbol table of the No-Code scheme.
#[derive(Debug)]
pub struct NoCodeDecoder {
    /// Received source symbols, indexed by ESI.
    pub symbols: Vec<Option<Vec<u8>>>,
    /// The reassembled block, once every symbol is in.
    pub decoded: Option<Vec<u8>>,
}

impl NoCodeDecoder {
    /// Every slot is filled.
    pub open spec fn all_received(&self) -> bool {
        forall|i: int| 0 <= i < self.symbols@.len() ==> self.symbols@[i] is Some
    }

    /// The decoder's invariant: a decode result exists only when every symbol
    /// arrived, and then it is their in-order concatenation.
    pub open spec fn wf(&self) -> bool {
        self.decoded matches Some(d) ==> self.all_received() && d@ == concat_all(
            unwrap_view(self.symbols@),
        )
    }

    /// A fresh decoder expecting `nb_source_symbols` symbols.
    pub fn new(nb_source_symbols: usize) -> (r: NoCodeDecoder)
        ensures
            r.wf(),
            r.symbols@.len() == nb_source_symbols,
            forall|i: int| 0 <= i < nb_source_symbols ==> r.symbols@[i] is None,
            r.decoded is None,
    {
        let mut symbols: Vec<Option<Vec<u8>>> = Vec::new();
        let mut i: usize = 0;
        while i < nb_source_symbols
            invariant
                0 <= i <= nb_source_symbols,
                symbols@.len() == i,
                forall|j: int| 0 <= j < i ==> symbols@[j] is None,
            decreases nb_source_symbols - i,
        {
            symbols.push(None);
            i += 1;
        }
        NoCodeDecoder { symbols, decoded: None }
    }

    /// Record one received symbol. A symbol for an unknown ESI or for a slot
    /// already filled is ignored, so duplicates and reordering cannot change
    /// the table.
    pub fn push_symbol(&mut self, payload: &[u8], esi: u32)
        requires
            old(self).wf(),
        ensures
            final(self).wf(),
            final(self).decoded == old(self).decoded,
            final(self).symbols@.len() == old(self).symbols@.len(),
            esi < old(self).symbols@.len() && old(self).symbols@[esi as int] is None ==> {
                &&& final(self).symbols@[esi as int] matches Some(v) && v@ == payload@
                &&& forall|i: int|
                    0 <= i < final(self).symbols@.len() && i != esi as int
                        ==> final(self).symbols@[i] == old(self).symbols@[i]
            },
            !(esi < old(self).symbols@.len() && old(self).symbols@[esi as int] is None)
                ==> final(self).symbols@ == old(self).symbols@,
    {
        if (esi as usize) < self.symbols.len() {
            if self.symbols[esi as usize].is_none() {
                let mut owned: Vec<u8> = Vec::new();
                owned.extend_from_slice(payload);
                self.symbols.set(esi as usize, Some(owned));
            }
        }
    }

    /// Whether the block can be reassembled: every source symbol is in.
    pub fn can_decode(&self) -> (r: bool)
        ensures
            r == self.all_received(),
    {
        let mut i: usize = 0;
        while i < self.symbols.len()
            invariant
                0 <= i <= self.symbols@.len(),
                forall|j: int| 0 <= j < i ==> self.symbols@[j] is Some,
            decreases self.symbols@.len() - i,
        {
            if self.symbols[i].is_none() {
                return false;
            }
            i += 1;
        }
        true
    }

    /// Reassemble the block when every symbol is in; reports success.
    pub fn decode(&mut self) -> (r: bool)
        requires
            old(self).wf(),
        ensures
            final(self).wf(),
            r == old(self).all_received(),
            final(self).symbols@ == old(self).symbols@,
            r ==> (final(self).decoded matches Some(d) && d@ == concat_all(
                unwrap_view(final(self).symbols@),
            )),
            !r ==> final(self).decoded == old(self).decoded,
    {
        if !self.can_decode() {
            return false;
        }
        let mut out: Vec<u8> = Vec::new();
        let mut i: usize = 0;
        while i < self.symbols.len()
            invariant
                0 <= i <= self.symbols@.len(),
                forall|j: int| 0 <= j < self.symbols@.len() ==> self.symbols@[j] is Some,
                out@ == concat_all(unwrap_view(self.symbols@).take(i as int)),
            decreases self.symbols@.len() - i,
        {
            proof {
                lemma_concat_all_take(unwrap_view(self.symbols@), i as int);
            }
            match &self.symbols[i] {
                Some(v) => {
                    out.extend_from_slice(v.as_slice());
                },
                None => {
                    proof {
                        assert(false);
                    }
                },
            }
            i += 1;
        }
        proof {
            lemma_concat_all_all(unwrap_view(self.symbols@));
        }
        self.decoded = Some(out);
        true
    }

    /// The reassembled block, when decoding has finished.
    pub fn source_block(&self) -> (r: Option<&Vec<u8>>)
        ensures
            r == match self.decoded {
                Some(_) => Some(&self.decoded->0),
                None => None::<&Vec<u8>>,
            },
            self.decoded matches Some(d) ==> r matches Some(v) && v@ == d@,
    {
        self.decoded.as_ref()
    }
}

/// Round trip of the No-Code scheme: when the received symbols are exactly the
/// sender's slices of a block `data` into symbols of `e` bytes, the
/// reassembled block is `data`, whatever order the symbols arrived in.
pub proof fn lemma_nocode_round_trip(dec: NoCodeDecoder, data: Seq<u8>, e: int)
    requires
        e >= 1,
        dec.symbols@.len() == spec_div_ceil(data.len() as int, e),
        forall|i: int|
            0 <= i < dec.symbols@.len() ==> (#[trigger] dec.symbols@[i] matches Some(v) && v@
                == chunk_of(data, e, i)),
    ensures
        concat_all(unwrap_view(dec.symbols@)) == data,
{
    let k = dec.symbols@.len() as int;
    let chunks = Seq::new(k as nat, |i: int| chunk_of(data, e, i));
    lemma_concat_all_congruence(unwrap_view(dec.symbols@), chunks);
    lemma_chunks_concat(data, e, k);
}

} // verus!
