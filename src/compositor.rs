//! Painter's-algorithm compositing: the primitives of one frame are drawn back
//! to front, ordered by their depth key.
//!
//! A depth key is an integer whose order is the order of the depth scalar it
//! stands for; the drawing side derives it from the depth by an
//! order-preserving encoding.
use vstd::prelude::*;
use rayon::slice::ParallelSliceMut;

verus! {

/// Whether the depth keys of `s` never decrease from front to back.
pub open spec fn depth_sorted<T>(s: Seq<(i32, T)>) -> bool {
    forall|i: int, j: int| 0 <= i <= j < s.len() ==> s[i].0 <= s[j].0
}

/// Relies on rayon's `ParallelSliceMut::par_sort_unstable_by_key`, keyed by
/// the depth field: it sorts the slice in place by the key, keeping the same
/// elements (equal keys in any order).
#[verifier::external_body]
fn par_sort_by_depth<T: Send>(buffer: &mut Vec<(i32, T)>)
    ensures
        final(buffer)@.to_multiset() == old(buffer)@.to_multiset(),
        depth_sorted(final(buffer)@),
{
    buffer.par_sort_unstable_by_key(|e| e.0);
}

/// Orders a frame's primitives for drawing. In accurate mode they come out
/// sorted back to front by depth key, the same primitives in another order;
/// in fast mode the buffer is left as it was built.
pub fn composite<T: Send>(buffer: &mut Vec<(i32, T)>, fast: bool)
    ensures
        fast ==> final(buffer)@ == old(buffer)@,
        !fast ==> final(buffer)@.to_multiset() == old(buffer)@.to_multiset(),
        !fast ==> depth_sorted(final(buffer)@),
{
    if !fast {
        par_sort_by_depth(buffer);
    }
}

/// The depth keys of `s`, front to back.
pub open spec fn depth_keys<T>(s: Seq<(i32, T)>) -> Seq<i32> {
    s.map_values(|e: (i32, T)| e.0)
}

proof fn lemma_sorted_remove<T>(s: Seq<(i32, T)>, j: int)
    requires
        depth_sorted(s),
        0 <= j < s.len(),
    ensures
        depth_sorted(s.remove(j)),
{
    assert forall|p: int, q: int| 0 <= p <= q < s.remove(j).len() implies s.remove(j)[p].0
        <= s.remove(j)[q].0 by {
        let pp = if p < j { p } else { p + 1 };
        let qq = if q < j { q } else { q + 1 };
        assert(s.remove(j)[p] == s[pp]);
        assert(s.remove(j)[q] == s[qq]);
    }
}

/// Two primitive buffers that hold the same primitives, inserted in any order,
/// are drawn with the same sequence of depths once composited: the back-to-front
/// order depends on what was inserted, not on the order of insertion.
pub proof fn lemma_depth_order_insensitive<T>(a: Seq<(i32, T)>, b: Seq<(i32, T)>)
    requires
        a.to_multiset() == b.to_multiset(),
        depth_sorted(a),
        depth_sorted(b),
    ensures
        depth_keys(a) == depth_keys(b),
    decreases a.len(),
{
    broadcast use vstd::seq_lib::group_to_multiset_ensures;
    broadcast use vstd::multiset::group_multiset_axioms;

    vstd::seq_lib::to_multiset_len(a);
    vstd::seq_lib::to_multiset_len(b);
    assert(a.len() == b.len());
    if a.len() == 0 {
        assert(depth_keys(a) =~= depth_keys(b));
    } else {
        let x = a[0];
        assert(a.contains(x));
        assert(a.to_multiset().count(x) > 0);
        assert(b.contains(x));
        let j = choose|j: int| 0 <= j < b.len() && b[j] == x;
        assert(a.contains(b[0])) by {
            assert(b.contains(b[0]));
            assert(b.to_multiset().count(b[0]) > 0);
        }
        let k = choose|k: int| 0 <= k < a.len() && a[k] == b[0];
        assert(a[0].0 <= a[k].0);
        assert(b[0].0 <= b[j].0);
        let ar = a.remove(0);
        let br = b.remove(j);
        lemma_sorted_remove(a, 0);
        lemma_sorted_remove(b, j);
        assert(ar.to_multiset() == br.to_multiset());
        lemma_depth_order_insensitive(ar, br);
        assert forall|i: int| 0 <= i < a.len() implies depth_keys(a)[i] == depth_keys(b)[i] by {
            if i == 0 {
            } else if i <= j {
                assert(b[i].0 <= b[j].0);
                assert(b[0].0 <= b[i].0);
                assert(ar[i - 1] == a[i]);
                assert(depth_keys(ar)[i - 1] == depth_keys(br)[i - 1]);
                assert(br[i - 1] == b[i - 1]);
                assert(b[i - 1].0 >= b[0].0);
                assert(b[i - 1].0 <= b[j].0);
            } else {
                assert(ar[i - 1] == a[i]);
                assert(br[i - 1] == b[i]);
                assert(depth_keys(ar)[i - 1] == depth_keys(br)[i - 1]);
            }
        }
        assert(depth_keys(a) =~= depth_keys(b));
    }
}

} // verus!
