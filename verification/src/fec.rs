//! Shared model of FEC block decoders: received-symbol tables and the
//! byte-level view of a reassembled block.

use vstd::prelude::*;

verus! {

/// How many symbol slots of the table are filled.
pub open spec fn count_present(s: Seq<Option<Vec<u8>>>) -> int
    decreases s.len(),
{
    if s.len() == 0 {
        0
    } else {
        count_present(s.drop_last()) + if s.last() is Some {
            1int
        } else {
            0int
        }
    }
}

/// Counting a prefix one slot longer adds that slot's contribution.
pub proof fn lemma_count_present_take(s: Seq<Option<Vec<u8>>>, i: int)
    requires
        0 <= i < s.len(),
    ensures
        count_present(s.take(i + 1)) == count_present(s.take(i)) + if s[i] is Some {
            1int
        } else {
            0int
        },
{
    assert(s.take(i + 1).drop_last() =~= s.take(i));
    assert(s.take(i + 1).last() == s[i]);
}

/// The whole sequence is its own `take`.
pub proof fn lemma_count_present_all(s: Seq<Option<Vec<u8>>>)
    ensures
        count_present(s.take(s.len() as int)) == count_present(s),
{
    assert(s.take(s.len() as int) =~= s);
}

/// Filling an empty slot raises the count by one.
pub proof fn lemma_count_present_update(s: Seq<Option<Vec<u8>>>, i: int, v: Vec<u8>)
    requires
        0 <= i < s.len(),
        s[i] is None,
    ensures
        count_present(s.update(i, Some(v))) == count_present(s) + 1,
    decreases s.len(),
{
    let t = s.update(i, Some(v));
    if i == s.len() - 1 {
        assert(t.drop_last() =~= s.drop_last());
    } else {
        assert(t.drop_last() =~= s.drop_last().update(i, Some(v)));
        lemma_count_present_update(s.drop_last(), i, v);
        assert(t.last() == s.last());
    }
}

/// The count never exceeds the table size.
pub proof fn lemma_count_present_bound(s: Seq<Option<Vec<u8>>>)
    ensures
        0 <= count_present(s) <= s.len(),
    decreases s.len(),
{
    if s.len() > 0 {
        lemma_count_present_bound(s.drop_last());
    }
}

/// Count the filled slots of a symbol table.
pub fn count_present_slots(s: &Vec<Option<Vec<u8>>>) -> (r: usize)
    ensures
        r == count_present(s@),
{
    let mut i: usize = 0;
    let mut count: usize = 0;
    proof {
        lemma_count_present_bound(s@);
    }
    while i < s.len()
        invariant
            0 <= i <= s@.len(),
            count == count_present(s@.take(i as int)),
            count <= i,
        decreases s@.len() - i,
    {
        proof {
            lemma_count_present_take(s@, i as int);
        }
        if s[i].is_some() {
            count += 1;
        }
        i += 1;
    }
    proof {
        lemma_count_present_all(s@);
    }
    count
}

/// Byte view of a fully reassembled block: the symbols in slot order.
pub open spec fn concat_all(s: Seq<Seq<u8>>) -> Seq<u8>
    decreases s.len(),
{
    if s.len() == 0 {
        Seq::empty()
    } else {
        concat_all(s.drop_last()) + s.last()
    }
}

/// Concatenating one more piece appends it.
pub proof fn lemma_concat_all_take(s: Seq<Seq<u8>>, i: int)
    requires
        0 <= i < s.len(),
    ensures
        concat_all(s.take(i + 1)) == concat_all(s.take(i)) + s[i],
{
    assert(s.take(i + 1).drop_last() =~= s.take(i));
    assert(s.take(i + 1).last() == s[i]);
}

/// The whole sequence is its own `take`.
pub proof fn lemma_concat_all_all(s: Seq<Seq<u8>>)
    ensures
        concat_all(s.take(s.len() as int)) == concat_all(s),
{
    assert(s.take(s.len() as int) =~= s);
}

/// Pointwise-equal symbol sequences concatenate to the same bytes.
pub proof fn lemma_concat_all_congruence(a: Seq<Seq<u8>>, b: Seq<Seq<u8>>)
    requires
        a.len() == b.len(),
        forall|i: int| 0 <= i < a.len() ==> a[i] == b[i],
    ensures
        concat_all(a) == concat_all(b),
{
    assert(a =~= b);
}

/// The symbols of a filled table, unwrapped.
pub open spec fn unwrap_view(s: Seq<Option<Vec<u8>>>) -> Seq<Seq<u8>> {
    Seq::new(s.len(), |i: int| s[i]->0@)
}

/// How many slots of a byte-view table are filled.
pub open spec fn count_filled(s: Seq<Option<Seq<u8>>>) -> int
    decreases s.len(),
{
    if s.len() == 0 {
        0
    } else {
        count_filled(s.drop_last()) + if s.last() is Some {
            1int
        } else {
            0int
        }
    }
}

/// A table and its byte-level view have the same filled slots.
pub proof fn lemma_count_filled_view(s: Seq<Option<Vec<u8>>>)
    ensures
        count_filled(table_view(s)) == count_present(s),
    decreases s.len(),
{
    if s.len() > 0 {
        lemma_count_filled_view(s.drop_last());
        assert(table_view(s).drop_last() =~= table_view(s.drop_last()));
        assert(table_view(s).last() is Some <==> s.last() is Some);
    }
}

/// Byte-level view of a symbol table: each slot as the bytes it holds.
pub open spec fn table_view(s: Seq<Option<Vec<u8>>>) -> Seq<Option<Seq<u8>>> {
    Seq::new(
        s.len(),
        |i: int|
            match s[i] {
                Some(v) => Some(v@),
                None => None::<Seq<u8>>,
            },
    )
}

/// The `i`-th symbol the sender cuts from `data` with symbols of `e` bytes:
/// a full slice except that the last one stops at the end of the data.
pub open spec fn chunk_of(data: Seq<u8>, e: int, i: int) -> Seq<u8> {
    data.subrange(i * e, if (i + 1) * e <= data.len() {
        (i + 1) * e
    } else {
        data.len() as int
    })
}

/// Sender-side slicing of a block into symbols, reassembled in order, gives
/// back exactly the block: the heart of the no-code round trip.
pub proof fn lemma_chunks_concat(data: Seq<u8>, e: int, k: int)
    requires
        e >= 1,
        k == crate::math::spec_div_ceil(data.len() as int, e),
    ensures
        concat_all(Seq::new(k as nat, |i: int| chunk_of(data, e, i))) == data,
{
    lemma_chunks_concat_prefix(data, e, k, k);
    if data.len() == 0 {
        assert(data.take(0) =~= data);
    } else {
        vstd::arithmetic::div_mod::lemma_fundamental_div_mod(data.len() as int, e);
        vstd::arithmetic::div_mod::lemma_mod_bound(data.len() as int, e);
        let q = data.len() as int / e;
        if data.len() as int % e == 0 {
            assert(k * e == e * q) by (nonlinear_arith)
                requires
                    k == q,
            ;
        } else {
            assert(k * e == e * q + e) by (nonlinear_arith)
                requires
                    k == q + 1,
            ;
        }
        assert(k * e >= data.len());
        assert(data.take(data.len() as int) =~= data);
    }
}

/// The first `i` chunks of `data` concatenate to the first `min(i*e, len)`
/// bytes of `data`.
proof fn lemma_chunks_concat_prefix(data: Seq<u8>, e: int, k: int, i: int)
    requires
        e >= 1,
        k == crate::math::spec_div_ceil(data.len() as int, e),
        0 <= i <= k,
    ensures
        concat_all(Seq::new(i as nat, |j: int| chunk_of(data, e, j))) == data.take(
            if i * e <= data.len() {
                i * e
            } else {
                data.len() as int
            },
        ),
    decreases i,
{
    let chunks = Seq::new(i as nat, |j: int| chunk_of(data, e, j));
    if i == 0 {
        assert(chunks =~= Seq::<Seq<u8>>::empty());
        assert(data.take(0) =~= Seq::<u8>::empty());
    } else {
        lemma_chunks_concat_prefix(data, e, k, i - 1);
        let prev = Seq::new((i - 1) as nat, |j: int| chunk_of(data, e, j));
        assert(chunks.drop_last() =~= prev);
        assert(chunks.last() == chunk_of(data, e, i - 1));
        // (i - 1) * e < data.len(): chunk i - 1 exists.
        if data.len() == 0 {
            vstd::arithmetic::div_mod::lemma_div_of0(e);
            vstd::arithmetic::div_mod::lemma_small_mod(0nat, e as nat);
            assert(false);
        }
        vstd::arithmetic::div_mod::lemma_fundamental_div_mod(data.len() as int, e);
        vstd::arithmetic::div_mod::lemma_mod_bound(data.len() as int, e);
        let q = data.len() as int / e;
        if data.len() as int % e == 0 {
            assert((i - 1) * e < data.len()) by (nonlinear_arith)
                requires
                    i <= k,
                    k == q,
                    data.len() as int == e * q,
                    e >= 1,
                    i >= 1,
            ;
        } else {
            assert((i - 1) * e < data.len()) by (nonlinear_arith)
                requires
                    i <= k,
                    k == q + 1,
                    data.len() as int == e * q + data.len() as int % e,
                    0 < data.len() as int % e < e,
                    e >= 1,
                    i >= 1,
            ;
        }
        assert((i - 1) * e == i * e - e) by (nonlinear_arith);
        let lo = (i - 1) * e;
        let hi = if i * e <= data.len() {
            i * e
        } else {
            data.len() as int
        };
        assert(data.take(lo).add(data.subrange(lo, hi)) =~= data.take(hi));
    }
}

/// The ESIs of a reception sequence are pairwise distinct.
pub open spec fn distinct_esis(p: Seq<(u32, Seq<u8>)>) -> bool {
    forall|i: int, j: int| 0 <= i < j < p.len() ==> (#[trigger] p[i]).0 != (#[trigger] p[j]).0
}

/// The symbols a reception sequence delivers, as a map from ESI to payload.
pub open spec fn pushes_as_map(p: Seq<(u32, Seq<u8>)>) -> Map<u32, Seq<u8>>
    decreases p.len(),
{
    if p.len() == 0 {
        Map::empty()
    } else {
        pushes_as_map(p.drop_last()).insert(p.last().0, p.last().1)
    }
}

/// A symbol table after a sequence of receptions, under the rule every block
/// decoder here follows: a symbol lands in its slot only if the slot exists
/// and is still empty.
pub open spec fn apply_pushes(t: Seq<Option<Seq<u8>>>, p: Seq<(u32, Seq<u8>)>) -> Seq<
    Option<Seq<u8>>,
>
    decreases p.len(),
{
    if p.len() == 0 {
        t
    } else {
        let rest = apply_pushes(t, p.drop_last());
        let esi = p.last().0;
        if esi < rest.len() && rest[esi as int] is None {
            rest.update(esi as int, Some(p.last().1))
        } else {
            rest
        }
    }
}

/// Receptions never change the table's size.
pub proof fn lemma_apply_pushes_len(t: Seq<Option<Seq<u8>>>, p: Seq<(u32, Seq<u8>)>)
    ensures
        apply_pushes(t, p).len() == t.len(),
    decreases p.len(),
{
    if p.len() > 0 {
        lemma_apply_pushes_len(t, p.drop_last());
    }
}

/// What ends up in each slot: the slot's original symbol if it had one, else
/// the delivered symbol for that ESI, if any — regardless of arrival order.
pub proof fn lemma_apply_pushes_slot(t: Seq<Option<Seq<u8>>>, p: Seq<(u32, Seq<u8>)>, i: int)
    requires
        distinct_esis(p),
        0 <= i < t.len(),
    ensures
        apply_pushes(t, p)[i] == (if t[i] is Some {
            t[i]
        } else if pushes_as_map(p).dom().contains(i as u32) && i == i as u32 as int {
            Some(pushes_as_map(p)[i as u32])
        } else {
            None
        }),
    decreases p.len(),
{
    lemma_apply_pushes_len(t, p);
    if p.len() > 0 {
        let q = p.drop_last();
        lemma_apply_pushes_len(t, q);
        lemma_apply_pushes_slot(t, q, i);
        let esi = p.last().0;
        assert(distinct_esis(q));
        if pushes_as_map(q).dom().contains(esi) {
            lemma_pushes_as_map_member(q, esi);
            assert(false);
        }
    }
}

/// An ESI in the delivered map appears in the reception sequence.
proof fn lemma_pushes_as_map_member(p: Seq<(u32, Seq<u8>)>, esi: u32)
    requires
        pushes_as_map(p).dom().contains(esi),
    ensures
        exists|j: int| 0 <= j < p.len() && (#[trigger] p[j]).0 == esi,
    decreases p.len(),
{
    if p.len() > 0 {
        if p.last().0 == esi {
            assert(p[p.len() - 1].0 == esi);
        } else {
            lemma_pushes_as_map_member(p.drop_last(), esi);
            let j = choose|j: int| 0 <= j < p.drop_last().len() && (#[trigger] p.drop_last()[j]).0
                == esi;
            assert(p[j].0 == esi);
        }
    }
}

/// Receptions compose: applying `p` then `q` is applying `p + q`.
pub proof fn lemma_apply_pushes_append(
    t: Seq<Option<Seq<u8>>>,
    p: Seq<(u32, Seq<u8>)>,
    q: Seq<(u32, Seq<u8>)>,
)
    ensures
        apply_pushes(t, p + q) == apply_pushes(apply_pushes(t, p), q),
    decreases q.len(),
{
    if q.len() == 0 {
        assert(p + q =~= p);
    } else {
        lemma_apply_pushes_append(t, p, q.drop_last());
        assert((p + q).drop_last() =~= p + q.drop_last());
        assert((p + q).last() == q.last());
    }
}

/// Every slot a reception sequence names is filled afterwards.
proof fn lemma_applied_slots_filled(t: Seq<Option<Seq<u8>>>, p: Seq<(u32, Seq<u8>)>, j: int)
    requires
        0 <= j < p.len(),
        (p[j].0 as int) < t.len(),
    ensures
        apply_pushes(t, p)[p[j].0 as int] is Some,
    decreases p.len(),
{
    lemma_apply_pushes_len(t, p);
    let rest = apply_pushes(t, p.drop_last());
    lemma_apply_pushes_len(t, p.drop_last());
    if j < p.len() - 1 {
        lemma_applied_slots_filled(t, p.drop_last(), j);
    }
}

/// Receptions that only name filled or out-of-range slots change nothing.
proof fn lemma_pushes_into_filled_noop(a: Seq<Option<Seq<u8>>>, p: Seq<(u32, Seq<u8>)>)
    requires
        forall|j: int|
            0 <= j < p.len() && ((#[trigger] p[j]).0 as int) < a.len() ==> a[p[j].0 as int]
                is Some,
    ensures
        apply_pushes(a, p) == a,
    decreases p.len(),
{
    if p.len() > 0 {
        lemma_pushes_into_filled_noop(a, p.drop_last());
        assert(p[p.len() - 1] == p.last());
    }
}

/// Carousel idempotence: delivering the same packet stream a second time
/// leaves every block decoder's symbol table — and hence the delivered object
/// — exactly as the first delivery left it.
pub proof fn lemma_redelivery_idempotent(t: Seq<Option<Seq<u8>>>, p: Seq<(u32, Seq<u8>)>)
    ensures
        apply_pushes(t, p + p) == apply_pushes(t, p),
{
    lemma_apply_pushes_append(t, p, p);
    let a = apply_pushes(t, p);
    lemma_apply_pushes_len(t, p);
    assert forall|j: int|
        0 <= j < p.len() && ((#[trigger] p[j]).0 as int) < a.len() implies a[p[j].0 as int]
        is Some by {
        lemma_applied_slots_filled(t, p, j);
    }
    lemma_pushes_into_filled_noop(a, p);
}

/// Reorder invariance of symbol reception: two arrival orders that deliver
/// the same symbols (each ESI once) leave every block decoder's symbol table
/// — and hence the decoded block — identical.
pub proof fn lemma_reorder_invariance(
    t: Seq<Option<Seq<u8>>>,
    p1: Seq<(u32, Seq<u8>)>,
    p2: Seq<(u32, Seq<u8>)>,
)
    requires
        distinct_esis(p1),
        distinct_esis(p2),
        pushes_as_map(p1) == pushes_as_map(p2),
    ensures
        apply_pushes(t, p1) == apply_pushes(t, p2),
{
    lemma_apply_pushes_len(t, p1);
    lemma_apply_pushes_len(t, p2);
    assert forall|i: int| 0 <= i < t.len() implies apply_pushes(t, p1)[i] == apply_pushes(
        t,
        p2,
    )[i] by {
        lemma_apply_pushes_slot(t, p1, i);
        lemma_apply_pushes_slot(t, p2, i);
    }
    assert(apply_pushes(t, p1) =~= apply_pushes(t, p2));
}

} // verus!
