//! The discrete decisions of drawing: which renderer a kind of sample grid
//! takes in each mode, how a segment between two samples meets the bounding
//! box, how a square grid is walked, and which colour a series gets.
use vstd::prelude::*;
use crate::types::{Color, GraphMode};

verus! {

/// The shape of a sample grid, without its samples.
#[derive(Clone, Copy, Debug, PartialEq, Eq, Structural)]
pub enum GridKind {
    /// Uniformly spaced samples along one axis.
    Width,
    /// Samples at explicit positions along one axis.
    Coord,
    /// A uniformly spaced square grid, row-major.
    Width3D,
    /// Samples at explicit points of the plane.
    Coord3D,
}

impl GridKind {
    pub open spec fn spans_plane(self) -> bool {
        self is Width3D || self is Coord3D
    }

    /// Whether the grid samples the plane.
    pub fn is_3d(&self) -> (r: bool)
        ensures
            r == self.spans_plane(),
    {
        matches!(self, GridKind::Width3D | GridKind::Coord3D)
    }
}

/// Whether any of the grids samples the plane.
pub fn is_3d_data(kinds: &Vec<GridKind>) -> (r: bool)
    ensures
        r == exists|i: int| 0 <= i < kinds@.len() && #[trigger] kinds@[i].spans_plane(),
{
    let mut i: usize = 0;
    while i < kinds.len()
        invariant
            i <= kinds@.len(),
            forall|j: int| 0 <= j < i ==> !#[trigger] kinds@[j].spans_plane(),
        decreases kinds@.len() - i,
    {
        if kinds[i].is_3d() {
            return true;
        }
        i = i + 1;
    }
    false
}

/// How one grid is drawn.
#[derive(Clone, Copy, Debug, PartialEq, Eq, Structural)]
pub enum Renderer {
    /// Real and imaginary parts as curves over the sample axis, in polar
    /// coordinates when `polar`.
    Curve { polar: bool },
    /// The path of (real, imaginary) in the plane.
    Parametric,
    /// The path of (real, imaginary, sample axis) in the 3D box.
    Path3D,
    /// A mesh over a square grid in the 3D box, each sample joined to its left
    /// and upper neighbour.
    Surface { polar: bool },
    /// Explicit 3D points joined in order.
    Points3D { polar: bool },
    /// One coloured cell per sample.
    DomainImage,
}

/// The renderer of a grid of kind `kind` in mode `mode`; none where the grid
/// cannot be shown in that mode, which then draws nothing.
pub open spec fn render_plan(kind: GridKind, mode: GraphMode) -> Option<Renderer> {
    match kind {
        GridKind::Width | GridKind::Coord => match mode {
            GraphMode::Normal => Some(Renderer::Curve { polar: false }),
            GraphMode::Polar => Some(Renderer::Curve { polar: true }),
            GraphMode::Flatten => Some(Renderer::Parametric),
            GraphMode::Depth => Some(Renderer::Path3D),
            _ => None,
        },
        GridKind::Width3D => match mode {
            GraphMode::Normal => Some(Renderer::Surface { polar: false }),
            GraphMode::Polar => Some(Renderer::Surface { polar: true }),
            GraphMode::Slice => Some(Renderer::Curve { polar: false }),
            GraphMode::SlicePolar => Some(Renderer::Curve { polar: true }),
            GraphMode::Flatten => Some(Renderer::Parametric),
            GraphMode::Depth => Some(Renderer::Path3D),
            GraphMode::DomainColoring => Some(Renderer::DomainImage),
        },
        GridKind::Coord3D => match mode {
            GraphMode::Normal => Some(Renderer::Points3D { polar: false }),
            GraphMode::Polar => Some(Renderer::Points3D { polar: true }),
            _ => None,
        },
    }
}

/// The renderer of a grid of kind `kind` in mode `mode`.
pub fn renderer(kind: GridKind, mode: GraphMode) -> (r: Option<Renderer>)
    ensures
        r == render_plan(kind, mode),
{
    match kind {
        GridKind::Width | GridKind::Coord => match mode {
            GraphMode::Normal => Some(Renderer::Curve { polar: false }),
            GraphMode::Polar => Some(Renderer::Curve { polar: true }),
            GraphMode::Flatten => Some(Renderer::Parametric),
            GraphMode::Depth => Some(Renderer::Path3D),
            _ => None,
        },
        GridKind::Width3D => match mode {
            GraphMode::Normal => Some(Renderer::Surface { polar: false }),
            GraphMode::Polar => Some(Renderer::Surface { polar: true }),
            GraphMode::Slice => Some(Renderer::Curve { polar: false }),
            GraphMode::SlicePolar => Some(Renderer::Curve { polar: true }),
            GraphMode::Flatten => Some(Renderer::Parametric),
            GraphMode::Depth => Some(Renderer::Path3D),
            GraphMode::DomainColoring => Some(Renderer::DomainImage),
        },
        GridKind::Coord3D => match mode {
            GraphMode::Normal => Some(Renderer::Points3D { polar: false }),
            GraphMode::Polar => Some(Renderer::Points3D { polar: true }),
            _ => None,
        },
    }
}

/// How the segment from a predecessor sample to the current one is drawn.
#[derive(Clone, Copy, Debug, PartialEq, Eq, Structural)]
pub enum Segment {
    /// Both ends lie in the box: the segment as it is.
    Direct,
    /// Only the current end lies in the box: the predecessor end is moved
    /// along the segment onto the box.
    ClipPrevious,
    /// Only the predecessor lies in the box: the current end is moved along
    /// the segment onto the box.
    ClipCurrent,
}

/// The segment drawn between a predecessor and the current sample; none when
/// both lie outside the box.
pub open spec fn segment_between(current_inside: bool, previous_inside: bool) -> Option<Segment> {
    if current_inside && previous_inside {
        Some(Segment::Direct)
    } else if current_inside {
        Some(Segment::ClipPrevious)
    } else if previous_inside {
        Some(Segment::ClipCurrent)
    } else {
        None
    }
}

/// The segment drawn between a predecessor and the current sample.
pub fn segment_kind(current_inside: bool, previous_inside: bool) -> (r: Option<Segment>)
    ensures
        r == segment_between(current_inside, previous_inside),
{
    if current_inside && previous_inside {
        Some(Segment::Direct)
    } else if current_inside {
        Some(Segment::ClipPrevious)
    } else if previous_inside {
        Some(Segment::ClipCurrent)
    } else {
        None
    }
}

/// The side of the largest square that `n` samples fill: a grid of `n`
/// samples is drawn over its first `side * side`.
pub fn grid_side(n: usize) -> (side: usize)
    ensures
        side * side <= n < (side + 1) * (side + 1),
{
    let m = n as u128;
    let mut r: u128 = 0;
    loop
        invariant
            r * r <= m,
            m == n,
            r <= 0x1_0000_0000,
        decreases m - r * r,
    {
        let next = r + 1;
        assert(next * next <= 0x1_0000_0001 * 0x1_0000_0001) by (nonlinear_arith)
            requires
                next <= 0x1_0000_0001,
        ;
        if next * next > m {
            proof {
                assert(r <= r * r) by (nonlinear_arith);
            }
            return r as usize;
        }
        assert(next * next > r * r) by (nonlinear_arith)
            requires
                next == r + 1,
        ;
        assert(next <= 0x1_0000_0000) by (nonlinear_arith)
            requires
                next * next <= m,
                m <= u64::MAX,
        ;
        r = next;
    }
}

/// The row-major neighbours of sample `index` in a square grid of side `side`
/// that are drawn before it: the sample to its left, and the one above it.
pub open spec fn grid_predecessors(index: int, side: int) -> (Option<int>, Option<int>) {
    (
        if index % side > 0 { Some(index - 1) } else { None },
        if index / side > 0 { Some(index - side) } else { None },
    )
}

/// The left and upper neighbours of sample `index` in a square grid of side
/// `side`, where they exist.
pub fn grid_neighbors(index: usize, side: usize) -> (r: (Option<usize>, Option<usize>))
    requires
        side > 0,
    ensures
        r.0 == (if index % side > 0 { Some((index - 1) as usize) } else { None::<usize> }),
        r.1 == (if index / side > 0 { Some((index - side) as usize) } else { None::<usize> }),
{
    let left = if index % side > 0 {
        assert(index > 0) by (nonlinear_arith)
            requires
                index % side > 0,
                side > 0,
        ;
        Some(index - 1)
    } else {
        None
    };
    let up = if index / side > 0 {
        assert(index >= side) by (nonlinear_arith)
            requires
                index / side > 0,
                side > 0,
        ;
        Some(index - side)
    } else {
        None
    };
    (left, up)
}

/// The flat index of the sample at column `i`, row `j` of a row-major grid
/// with rows of `side` samples, if the `n` samples of the grid reach it.
pub fn cell_index(i: usize, j: usize, side: usize, n: usize) -> (r: Option<usize>)
    ensures
        r == (if i + side * j < n { Some((i + side * j) as usize) } else { None::<usize> }),
{
    match side.checked_mul(j) {
        Some(row) => match i.checked_add(row) {
            Some(k) => if k < n {
                Some(k)
            } else {
                None
            },
            None => None,
        },
        None => {
            assert(side * j >= n) by (nonlinear_arith)
                requires
                    side * j > usize::MAX,
                    n <= usize::MAX,
            ;
            None
        },
    }
}

/// The colour of series `k` in a palette of `colors`, which repeats.
pub fn palette_color(colors: &Vec<Color>, k: usize) -> (c: Color)
    requires
        colors@.len() > 0,
    ensures
        c == colors@[(k as int) % (colors@.len() as int)],
{
    colors[k % colors.len()]
}

/// The bright colours of the real parts of successive series.
pub open spec fn main_colors() -> Seq<Color> {
    seq![
        Color { r: 255, g: 85, b: 85 },
        Color { r: 85, g: 85, b: 255 },
        Color { r: 255, g: 85, b: 255 },
        Color { r: 85, g: 255, b: 85 },
        Color { r: 85, g: 255, b: 255 },
        Color { r: 255, g: 255, b: 85 },
    ]
}

/// The dark colours of the imaginary parts of successive series.
pub open spec fn alt_colors() -> Seq<Color> {
    seq![
        Color { r: 170, g: 0, b: 0 },
        Color { r: 0, g: 0, b: 170 },
        Color { r: 170, g: 0, b: 170 },
        Color { r: 0, g: 170, b: 0 },
        Color { r: 0, g: 170, b: 170 },
        Color { r: 170, g: 170, b: 0 },
    ]
}

/// The default palette of real parts.
pub fn main_palette() -> (r: Vec<Color>)
    ensures
        r@ == main_colors(),
{
    let r = vec![
        Color::new(255, 85, 85),
        Color::new(85, 85, 255),
        Color::new(255, 85, 255),
        Color::new(85, 255, 85),
        Color::new(85, 255, 255),
        Color::new(255, 255, 85),
    ];
    assert(r@ =~= main_colors());
    r
}

/// The default palette of imaginary parts.
pub fn alt_palette() -> (r: Vec<Color>)
    ensures
        r@ == alt_colors(),
{
    let r = vec![
        Color::new(170, 0, 0),
        Color::new(0, 0, 170),
        Color::new(170, 0, 170),
        Color::new(0, 170, 0),
        Color::new(0, 170, 170),
        Color::new(170, 170, 0),
    ];
    assert(r@ =~= alt_colors());
    r
}

/// The channel order of an HSV colour in hue sector `sector` (taken modulo
/// six), where `v` is the value and `p`, `q`, `t` the three derived levels.
pub open spec fn sector_rgb<T>(sector: nat, v: T, p: T, q: T, t: T) -> (T, T, T) {
    let s = sector % 6;
    if s == 0 {
        (v, t, p)
    } else if s == 1 {
        (q, v, p)
    } else if s == 2 {
        (p, v, t)
    } else if s == 3 {
        (p, q, v)
    } else if s == 4 {
        (t, p, v)
    } else {
        (v, p, q)
    }
}

/// Arranges the levels of an HSV colour into red, green and blue by hue
/// sector.
pub fn hsv_sector<T: Copy>(sector: usize, v: T, p: T, q: T, t: T) -> (r: (T, T, T))
    ensures
        r == sector_rgb(sector as nat, v, p, q, t),
{
    let s = sector % 6;
    if s == 0 {
        (v, t, p)
    } else if s == 1 {
        (q, v, p)
    } else if s == 2 {
        (p, v, t)
    } else if s == 3 {
        (p, q, v)
    } else if s == 4 {
        (t, p, v)
    } else {
        (v, p, q)
    }
}

} // verus!
