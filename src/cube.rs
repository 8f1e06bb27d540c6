//! The bounding box drawn around 3D plots: its corners, its edges, and which
//! edges carry the axis labels.
//!
//! Corner `v` (below 8) lies at `+s` on the x axis when bit 2 of `v` is set
//! and at `-s` otherwise, likewise y with bit 1 and z with bit 0.
use vstd::prelude::*;

verus! {

/// A coordinate axis of the box.
#[derive(Clone, Copy, Debug, PartialEq, Eq, Structural)]
pub enum Axis {
    X,
    Y,
    Z,
}

/// The bit of a corner index that gives its side along `a`.
pub open spec fn axis_bit(a: Axis) -> usize {
    match a {
        Axis::X => 4,
        Axis::Y => 2,
        Axis::Z => 1,
    }
}

/// The twelve edges, as pairs of corners.
pub open spec fn edge_list() -> Seq<(usize, usize)> {
    seq![
        (0, 1), (1, 3), (3, 2), (2, 0),
        (4, 5), (5, 7), (7, 6), (6, 4),
        (0, 4), (1, 5), (2, 6), (3, 7),
    ]
}

/// The axis that edge `k` runs along.
pub open spec fn edge_axis_of(k: int) -> Axis {
    if 8 <= k {
        Axis::X
    } else if k % 2 == 1 {
        Axis::Y
    } else {
        Axis::Z
    }
}

/// Whether corners `a` and `b` are joined by an edge.
pub open spec fn corners_adjacent(a: usize, b: usize) -> bool {
    exists|k: int|
        0 <= k < 12 && ((#[trigger] edge_list()[k]).0 == a && edge_list()[k].1 == b
            || edge_list()[k].0 == b && edge_list()[k].1 == a)
}

/// The signs of corner `v` along x, y and z.
pub fn corner_signs(v: usize) -> (r: (i8, i8, i8))
    requires
        v < 8,
    ensures
        r.0 == (if v & 4 != 0 { 1i8 } else { -1i8 }),
        r.1 == (if v & 2 != 0 { 1i8 } else { -1i8 }),
        r.2 == (if v & 1 != 0 { 1i8 } else { -1i8 }),
{
    (
        if v & 4 != 0 { 1 } else { -1 },
        if v & 2 != 0 { 1 } else { -1 },
        if v & 1 != 0 { 1 } else { -1 },
    )
}

/// The twelve edges of the box.
pub fn cube_edges() -> (r: Vec<(usize, usize)>)
    ensures
        r@ == edge_list(),
{
    let r = vec![
        (0, 1), (1, 3), (3, 2), (2, 0),
        (4, 5), (5, 7), (7, 6), (6, 4),
        (0, 4), (1, 5), (2, 6), (3, 7),
    ];
    assert(r@ =~= edge_list());
    r
}

/// The axis that edge `k` runs along.
pub fn edge_axis(k: usize) -> (r: Axis)
    requires
        k < 12,
    ensures
        r == edge_axis_of(k as int),
        edge_list()[k as int].0 ^ edge_list()[k as int].1 == axis_bit(r),
{
    proof {
        lemma_edges_follow_axes();
    }
    if 8 <= k {
        Axis::X
    } else if k % 2 == 1 {
        Axis::Y
    } else {
        Axis::Z
    }
}

/// Whether corners `a` and `b` are joined by an edge of the box.
pub fn adjacent(a: usize, b: usize) -> (r: bool)
    ensures
        r == corners_adjacent(a, b),
{
    let edges = cube_edges();
    let mut k: usize = 0;
    while k < edges.len()
        invariant
            edges@ == edge_list(),
            k <= 12,
            forall|j: int|
                0 <= j < k ==> !((#[trigger] edge_list()[j]).0 == a && edge_list()[j].1 == b
                    || edge_list()[j].0 == b && edge_list()[j].1 == a),
        decreases 12 - k,
    {
        let (m, n) = edges[k];
        if (m == a && n == b) || (m == b && n == a) {
            assert(edge_list()[k as int].0 == a && edge_list()[k as int].1 == b
                || edge_list()[k as int].0 == b && edge_list()[k as int].1 == a);
            return true;
        }
        k = k + 1;
    }
    false
}

/// Whether edge `(i, j)` along `axis` carries labels: an x or y edge that meets
/// the corner `xl`, or a z edge that meets the corner `zl`.
pub fn edge_labelled(i: usize, j: usize, axis: Axis, xl: usize, zl: usize) -> (r: bool)
    ensures
        r == (if axis is Z { i == zl || j == zl } else { i == xl || j == xl }),
{
    match axis {
        Axis::Z => i == zl || j == zl,
        _ => i == xl || j == xl,
    }
}

/// Each edge of the box joins two distinct corners that differ only in their
/// side along the edge's axis.
pub proof fn lemma_edges_follow_axes()
    ensures
        forall|k: int|
            0 <= k < 12 ==> (#[trigger] edge_list()[k]).0 < 8 && edge_list()[k].1 < 8
                && edge_list()[k].0 ^ edge_list()[k].1 == axis_bit(edge_axis_of(k)),
{
    assert forall|k: int| 0 <= k < 12 implies (#[trigger] edge_list()[k]).0 < 8
        && edge_list()[k].1 < 8 && edge_list()[k].0 ^ edge_list()[k].1 == axis_bit(
        edge_axis_of(k),
    ) by {
        assert((0usize ^ 1usize) == 1usize) by (bit_vector);
        assert((1usize ^ 3usize) == 2usize) by (bit_vector);
        assert((3usize ^ 2usize) == 1usize) by (bit_vector);
        assert((2usize ^ 0usize) == 2usize) by (bit_vector);
        assert((4usize ^ 5usize) == 1usize) by (bit_vector);
        assert((5usize ^ 7usize) == 2usize) by (bit_vector);
        assert((7usize ^ 6usize) == 1usize) by (bit_vector);
        assert((6usize ^ 4usize) == 2usize) by (bit_vector);
        assert((0usize ^ 4usize) == 4usize) by (bit_vector);
        assert((1usize ^ 5usize) == 4usize) by (bit_vector);
        assert((2usize ^ 6usize) == 4usize) by (bit_vector);
        assert((3usize ^ 7usize) == 4usize) by (bit_vector);
    }
}

} // verus!
