//! The graph-mode state machine: which modes the user can cycle through for a
//! given kind of data, and whether a mode renders through the 3D projector.
use vstd::prelude::*;
use vstd::arithmetic::div_mod::{lemma_add_mod_noop, lemma_small_mod};
use crate::types::GraphMode;

verus! {

/// The modes offered, in cycling order, for complex and/or 3D data.
pub open spec fn mode_order(is_complex: bool, is_3d_data: bool) -> Seq<GraphMode> {
    if is_complex && is_3d_data {
        seq![
            GraphMode::Normal,
            GraphMode::Polar,
            GraphMode::Slice,
            GraphMode::SlicePolar,
            GraphMode::Flatten,
            GraphMode::Depth,
            GraphMode::DomainColoring,
        ]
    } else if is_complex {
        seq![GraphMode::Normal, GraphMode::Polar, GraphMode::Flatten, GraphMode::Depth]
    } else if is_3d_data {
        seq![GraphMode::Normal, GraphMode::Polar, GraphMode::Slice, GraphMode::SlicePolar]
    } else {
        seq![GraphMode::Normal, GraphMode::Polar]
    }
}

/// The mode after `m` in `order`, wrapping round; a mode that is not offered
/// moves to the first one.
pub open spec fn step_up(order: Seq<GraphMode>, m: GraphMode) -> GraphMode {
    if order.contains(m) {
        if order.index_of(m) + 1 < order.len() {
            order[order.index_of(m) + 1]
        } else {
            order[0]
        }
    } else {
        order[0]
    }
}

/// The mode before `m` in `order`, wrapping round; a mode that is not offered
/// moves to the first one.
pub open spec fn step_down(order: Seq<GraphMode>, m: GraphMode) -> GraphMode {
    if order.contains(m) {
        if order.index_of(m) > 0 {
            order[order.index_of(m) - 1]
        } else {
            order.last()
        }
    } else {
        order[0]
    }
}

/// `m` after `k` steps up through `order`.
pub open spec fn steps_up(order: Seq<GraphMode>, m: GraphMode, k: nat) -> GraphMode
    decreases k,
{
    if k == 0 {
        m
    } else {
        step_up(order, steps_up(order, m, (k - 1) as nat))
    }
}

/// Whether `mode` draws through the 3D projector.
pub open spec fn renders_3d(mode: GraphMode, is_3d_data: bool) -> bool {
    match mode {
        GraphMode::Normal | GraphMode::Polar | GraphMode::Slice | GraphMode::SlicePolar => is_3d_data,
        GraphMode::Depth => true,
        GraphMode::DomainColoring | GraphMode::Flatten => false,
    }
}

/// Whether the user's slice index and slice axis apply in `mode`.
pub open spec fn is_slice_mode(mode: GraphMode) -> bool {
    mode is Slice || mode is SlicePolar
}

/// Each list of modes on offer names every mode at most once, starts with the
/// normal mode and offers at least two; so each mode on offer has one place in
/// it.
pub proof fn lemma_order_facts(is_complex: bool, is_3d_data: bool)
    ensures
        mode_order(is_complex, is_3d_data).no_duplicates(),
        mode_order(is_complex, is_3d_data).len() >= 2,
        mode_order(is_complex, is_3d_data)[0] == GraphMode::Normal,
        forall|i: int|
            0 <= i < mode_order(is_complex, is_3d_data).len() ==> mode_order(
                is_complex,
                is_3d_data,
            ).contains(#[trigger] mode_order(is_complex, is_3d_data)[i]) && mode_order(
                is_complex,
                is_3d_data,
            ).index_of(mode_order(is_complex, is_3d_data)[i]) == i,
{
    let s = mode_order(is_complex, is_3d_data);
    assert forall|i: int| 0 <= i < s.len() implies s.contains(#[trigger] s[i]) && s.index_of(s[i])
        == i by {
        lemma_index_of_distinct(s, i);
    }
}

proof fn lemma_index_of_distinct(s: Seq<GraphMode>, j: int)
    requires
        s.no_duplicates(),
        0 <= j < s.len(),
    ensures
        s.contains(s[j]),
        s.index_of(s[j]) == j,
{
    assert(s.contains(s[j]));
}

/// The modes offered for complex and/or 3D data, in cycling order.
pub fn modes_for(is_complex: bool, is_3d_data: bool) -> (r: Vec<GraphMode>)
    ensures
        r@ == mode_order(is_complex, is_3d_data),
{
    let r = if is_complex && is_3d_data {
        vec![
            GraphMode::Normal,
            GraphMode::Polar,
            GraphMode::Slice,
            GraphMode::SlicePolar,
            GraphMode::Flatten,
            GraphMode::Depth,
            GraphMode::DomainColoring,
        ]
    } else if is_complex {
        vec![GraphMode::Normal, GraphMode::Polar, GraphMode::Flatten, GraphMode::Depth]
    } else if is_3d_data {
        vec![GraphMode::Normal, GraphMode::Polar, GraphMode::Slice, GraphMode::SlicePolar]
    } else {
        vec![GraphMode::Normal, GraphMode::Polar]
    };
    assert(r@ =~= mode_order(is_complex, is_3d_data));
    r
}

/// Where `m` stands in `order`, if it is there.
fn find_mode(order: &Vec<GraphMode>, m: GraphMode) -> (r: Option<usize>)
    requires
        order@.no_duplicates(),
    ensures
        order@.contains(m) <==> r is Some,
        r matches Some(i) ==> i < order@.len() && i == order@.index_of(m),
{
    let mut i: usize = 0;
    while i < order.len()
        invariant
            i <= order@.len(),
            order@.no_duplicates(),
            forall|j: int| 0 <= j < i ==> order@[j] != m,
        decreases order@.len() - i,
    {
        if order[i] == m {
            proof {
                lemma_index_of_distinct(order@, i as int);
            }
            return Some(i);
        }
        i = i + 1;
    }
    None
}

/// The mode that "mode up" leads to from `mode`.
pub fn mode_up(mode: GraphMode, is_complex: bool, is_3d_data: bool) -> (r: GraphMode)
    ensures
        r == step_up(mode_order(is_complex, is_3d_data), mode),
{
    let order = modes_for(is_complex, is_3d_data);
    proof {
        lemma_order_facts(is_complex, is_3d_data);
    }
    match find_mode(&order, mode) {
        Some(i) => if i + 1 < order.len() {
            order[i + 1]
        } else {
            order[0]
        },
        None => order[0],
    }
}

/// The mode that "mode down" leads to from `mode`.
pub fn mode_down(mode: GraphMode, is_complex: bool, is_3d_data: bool) -> (r: GraphMode)
    ensures
        r == step_down(mode_order(is_complex, is_3d_data), mode),
{
    let order = modes_for(is_complex, is_3d_data);
    proof {
        lemma_order_facts(is_complex, is_3d_data);
    }
    match find_mode(&order, mode) {
        Some(i) => if i > 0 {
            order[i - 1]
        } else {
            order[order.len() - 1]
        },
        None => order[0],
    }
}

/// Whether `mode` draws through the 3D projector for this kind of data.
pub fn mode_is_3d(mode: GraphMode, is_3d_data: bool) -> (r: bool)
    ensures
        r == renders_3d(mode, is_3d_data),
{
    match mode {
        GraphMode::Normal | GraphMode::Polar | GraphMode::Slice | GraphMode::SlicePolar => is_3d_data,
        GraphMode::Depth => true,
        GraphMode::DomainColoring | GraphMode::Flatten => false,
    }
}

/// Whether the slice index and slice axis apply in `mode`.
pub fn slice_mode(mode: GraphMode) -> (r: bool)
    ensures
        r == is_slice_mode(mode),
{
    matches!(mode, GraphMode::Slice | GraphMode::SlicePolar)
}

proof fn lemma_steps_up_index(order: Seq<GraphMode>, i: int, k: nat)
    requires
        order.no_duplicates(),
        order.len() >= 2,
        0 <= i < order.len(),
    ensures
        steps_up(order, order[i], k) == order[(i + k) % order.len() as int],
    decreases k,
{
    let n = order.len() as int;
    if k == 0 {
        lemma_small_mod(i as nat, n as nat);
    } else {
        lemma_steps_up_index(order, i, (k - 1) as nat);
        let j = (i + k - 1) % n;
        assert(0 <= j < n);
        lemma_index_of_distinct(order, j);
        lemma_add_mod_noop(i + k - 1, 1, n);
        lemma_small_mod(1, n as nat);
        if j + 1 < n {
            lemma_small_mod((j + 1) as nat, n as nat);
        } else {
            vstd::arithmetic::div_mod::lemma_mod_self_0(n);
        }
    }
}

/// Cycling "mode up" as many times as there are modes on offer comes back to
/// the starting mode, for every mode on offer and every kind of data.
pub proof fn lemma_mode_cycle_closure(is_complex: bool, is_3d_data: bool, m: GraphMode)
    requires
        mode_order(is_complex, is_3d_data).contains(m),
    ensures
        steps_up(mode_order(is_complex, is_3d_data), m, mode_order(is_complex, is_3d_data).len())
            == m,
{
    let order = mode_order(is_complex, is_3d_data);
    lemma_order_facts(is_complex, is_3d_data);
    let i = order.index_of(m);
    lemma_steps_up_index(order, i, order.len());
    vstd::arithmetic::div_mod::lemma_mod_self_0(order.len() as int);
    lemma_add_mod_noop(i, order.len() as int, order.len() as int);
    lemma_small_mod(i as nat, order.len() as nat);
}

} // verus!
