//! The discrete interaction state of a plot: its mode, the dirty flag of the
//! level-of-detail protocol, the slice under view and the display toggles;
//! how key presses change it; and which data request a dirty state issues.
use vstd::prelude::*;
use crate::types::{DepthColor, GraphMode, Lines, Show};
use crate::mode::{
    is_slice_mode, mode_down, mode_is_3d, mode_order, mode_up, renders_3d, slice_mode, step_down,
    step_up,
};

verus! {

/// What the data source is asked to sample, once per dirty frame. The
/// drawing side fills in the bounds from the view.
#[derive(Clone, Copy, Debug, PartialEq, Eq, Structural)]
pub enum Request {
    /// A square grid over the offset 3D bound, at the current precision.
    Surface,
    /// A grid over the visible rectangle, one sample per rendered cell.
    Domain,
    /// A grid along the viewed axis crossed with the frozen bound of the other
    /// axis, for the slice `slice` of that axis.
    Slice { view_x: bool, slice: isize },
    /// A line over the free-variable range.
    FreeVariable,
    /// A line over the bound shifted by the out-of-plane offset.
    Depth,
    /// A line over the visible horizontal range.
    Visible,
}

/// The request that a dirty state issues.
pub open spec fn planned_request(mode: GraphMode, is_3d_data: bool, view_x: bool, slice: isize) -> Request {
    match mode {
        GraphMode::Normal | GraphMode::Polar => if is_3d_data {
            Request::Surface
        } else {
            Request::Visible
        },
        GraphMode::DomainColoring => Request::Domain,
        GraphMode::Slice | GraphMode::SlicePolar => Request::Slice { view_x, slice },
        GraphMode::Flatten => Request::FreeVariable,
        GraphMode::Depth => Request::Depth,
    }
}

/// The keys pressed during one frame, with the shift modifier.
#[derive(Clone, Copy, Debug, PartialEq, Eq, Structural)]
pub struct Keys {
    pub shift: bool,
    pub a: bool,
    pub d: bool,
    pub w: bool,
    pub s: bool,
    pub left: bool,
    pub right: bool,
    pub up: bool,
    pub down: bool,
    pub q: bool,
    pub e: bool,
    pub f: bool,
    pub g: bool,
    pub h: bool,
    pub j: bool,
    pub m: bool,
    pub z: bool,
    pub x: bool,
    pub c: bool,
    pub v: bool,
    pub r: bool,
    pub p: bool,
    pub o: bool,
    pub y: bool,
    pub l: bool,
    pub i: bool,
    pub b: bool,
    pub t: bool,
    pub period: bool,
    pub comma: bool,
    pub slash: bool,
    pub open_bracket: bool,
    pub close_bracket: bool,
}

/// `x` clamped to the range of `isize`.
pub open spec fn clamp_isize(x: int) -> int {
    if x < isize::MIN {
        isize::MIN as int
    } else if x > isize::MAX {
        isize::MAX as int
    } else {
        x
    }
}

/// `x / 2` rounded toward zero.
pub open spec fn half_toward_zero(x: int) -> int {
    if x >= 0 {
        x / 2
    } else {
        -((-x) / 2)
    }
}

fn add_clamped(a: isize, b: isize) -> (r: isize)
    ensures
        r == clamp_isize(a + b),
{
    if b >= 0 {
        if a > isize::MAX - b {
            isize::MAX
        } else {
            a + b
        }
    } else {
        if a < isize::MIN - b {
            isize::MIN
        } else {
            a + b
        }
    }
}

fn sub_clamped(a: isize, b: isize) -> (r: isize)
    requires
        b >= 0,
    ensures
        r == clamp_isize(a - b),
{
    if a < isize::MIN + b {
        isize::MIN
    } else {
        a - b
    }
}

fn halve(a: isize) -> (r: isize)
    ensures
        r == half_toward_zero(a as int),
{
    if a >= 0 {
        ((a as usize) / 2) as isize
    } else {
        let u = (-(a + 1)) as usize;
        let h = u / 2 + u % 2;
        assert(h == (-(a as int)) / 2) by (nonlinear_arith)
            requires
                u == -(a + 1),
                h == u / 2 + u % 2,
                u >= 0,
        ;
        -(h as isize)
    }
}

fn double(a: isize) -> (r: isize)
    ensures
        r == clamp_isize(2 * a),
{
    add_clamped(a, a)
}

/// The interaction state of a plot that holds no coordinates.
#[derive(Clone, Copy, Debug, PartialEq, Eq, Structural)]
pub struct PlotState {
    pub graph_mode: GraphMode,
    pub is_complex: bool,
    pub is_3d_data: bool,
    /// Set when the visible domain or the precision changed since the last
    /// request to the data source.
    pub dirty: bool,
    /// Whether slices run along the x axis (else along y).
    pub view_x: bool,
    pub slice: isize,
    pub show: Show,
    pub lines: Lines,
    pub color_depth: DepthColor,
    pub ignore_bounds: bool,
    pub show_box: bool,
    pub disable_lines: bool,
    pub disable_axis: bool,
    pub disable_coord: bool,
    pub scale_axis: bool,
    pub anti_alias: bool,
    pub domain_alternate: bool,
    pub log_scale: bool,
}

impl PlotState {
    /// Whether the plot currently draws through the 3D projector.
    pub open spec fn renders_in_3d(self) -> bool {
        renders_3d(self.graph_mode, self.is_3d_data)
    }

    /// Whether one frame's key presses change the visible domain or the
    /// precision.
    pub open spec fn keys_dirty(self, k: Keys) -> bool {
        let is3d = self.renders_in_3d();
        let dc = self.graph_mode is DomainColoring;
        let depth = self.graph_mode is Depth;
        let moved = if is3d {
            ((k.left || k.right || k.up || k.down) && !depth) || ((k.f || k.g) && depth)
        } else {
            k.a || k.left || k.d || k.right || ((k.w || k.up || k.s || k.down) && dc)
        };
        moved || k.q || k.e || (is_slice_mode(self.graph_mode) && (k.period || k.comma || k.slash))
            || (self.graph_mode is Flatten && (k.h || k.j || k.m)) || k.open_bracket
            || k.close_bracket || k.b || k.t
    }

    /// The slice index after one frame's key presses: stepped by one (four
    /// with shift) in a slice mode, halved and doubled with the precision,
    /// clamped to the range of `isize`, and reset to zero.
    pub open spec fn keys_slice(self, k: Keys) -> isize {
        let in_slice = is_slice_mode(self.graph_mode);
        let step: int = if k.shift { 4 } else { 1 };
        let s1 = if in_slice && k.period { clamp_isize(self.slice + step) } else { self.slice as int };
        let s2 = if in_slice && k.comma { clamp_isize(s1 - step) } else { s1 };
        let s3 = if k.open_bracket { half_toward_zero(s2) } else { s2 };
        let s4 = if k.close_bracket { clamp_isize(2 * s3) } else { s3 };
        if k.t { 0 } else { s4 as isize }
    }

    /// The mode after one frame's key presses: up with the mode key, down
    /// with shift.
    pub open spec fn keys_mode(self, k: Keys) -> GraphMode {
        let order = mode_order(self.is_complex, self.is_3d_data);
        if !k.b {
            self.graph_mode
        } else if k.shift {
            step_down(order, self.graph_mode)
        } else {
            step_up(order, self.graph_mode)
        }
    }

    /// The state after one frame's key presses.
    pub open spec fn after_keys(self, k: Keys) -> PlotState {
        let is3d = self.renders_in_3d();
        let dc = self.graph_mode is DomainColoring;
        PlotState {
            graph_mode: self.keys_mode(k),
            is_complex: self.is_complex,
            is_3d_data: self.is_3d_data,
            dirty: self.dirty || self.keys_dirty(k),
            view_x: self.view_x != (is_slice_mode(self.graph_mode) && k.slash),
            slice: self.keys_slice(k),
            show: if k.i && self.is_complex { self.show.following() } else { self.show },
            lines: if k.l && !dc { self.lines.following() } else { self.lines },
            color_depth: if is3d && k.o { self.color_depth.following() } else { self.color_depth },
            ignore_bounds: self.ignore_bounds != (is3d && k.p),
            show_box: self.show_box != (is3d && k.y),
            disable_lines: self.disable_lines != k.z,
            disable_axis: self.disable_axis != k.x,
            disable_coord: self.disable_coord != k.c,
            scale_axis: self.scale_axis != k.v,
            anti_alias: self.anti_alias != k.r,
            domain_alternate: self.domain_alternate != (!is3d && k.y),
            log_scale: self.log_scale != (k.l && dc),
        }
    }

    /// Whether one frame's key presses make a cached domain-colouring image
    /// out of date.
    pub open spec fn keys_stale_image(self, k: Keys) -> bool {
        k.r || (!self.renders_in_3d() && k.y) || (k.l && self.graph_mode is DomainColoring)
    }

    /// The state of a new plot: normal mode, nothing requested yet.
    pub fn new(is_complex: bool, is_3d_data: bool) -> (r: PlotState)
        ensures
            r == (PlotState {
                graph_mode: GraphMode::Normal,
                is_complex,
                is_3d_data,
                dirty: false,
                view_x: true,
                slice: 0,
                show: Show::Complex,
                lines: Lines::Lines,
                color_depth: DepthColor::Off,
                ignore_bounds: false,
                show_box: true,
                disable_lines: false,
                disable_axis: false,
                disable_coord: false,
                scale_axis: false,
                anti_alias: true,
                domain_alternate: true,
                log_scale: false,
            }),
    {
        PlotState {
            graph_mode: GraphMode::Normal,
            is_complex,
            is_3d_data,
            dirty: false,
            view_x: true,
            slice: 0,
            show: Show::Complex,
            lines: Lines::Lines,
            color_depth: DepthColor::Off,
            ignore_bounds: false,
            show_box: true,
            disable_lines: false,
            disable_axis: false,
            disable_coord: false,
            scale_axis: false,
            anti_alias: true,
            domain_alternate: true,
            log_scale: false,
        }
    }

    /// Whether the plot currently draws through the 3D projector.
    pub fn is_3d(&self) -> (r: bool)
        ensures
            r == self.renders_in_3d(),
    {
        mode_is_3d(self.graph_mode, self.is_3d_data)
    }

    /// Records a change of the visible domain or of the precision.
    pub fn mark_dirty(&mut self)
        ensures
            *final(self) == (PlotState { dirty: true, ..*old(self) }),
    {
        self.dirty = true;
    }

    /// Switches to `mode` and asks for new data.
    pub fn set_mode(&mut self, mode: GraphMode)
        ensures
            *final(self) == (PlotState { graph_mode: mode, dirty: true, ..*old(self) }),
    {
        self.graph_mode = mode;
        self.dirty = true;
    }

    /// Records whether the samples are complex.
    pub fn set_is_complex(&mut self, is_complex: bool)
        ensures
            *final(self) == (PlotState { is_complex, ..*old(self) }),
    {
        self.is_complex = is_complex;
    }

    /// Records whether the samples form 2D grids.
    pub fn set_is_3d_data(&mut self, is_3d_data: bool)
        ensures
            *final(self) == (PlotState { is_3d_data, ..*old(self) }),
    {
        self.is_3d_data = is_3d_data;
    }

    /// Moves to the next mode on offer and asks for new data.
    pub fn mode_up(&mut self)
        ensures
            *final(self) == (PlotState {
                graph_mode: step_up(mode_order(old(self).is_complex, old(self).is_3d_data), old(self).graph_mode),
                dirty: true,
                ..*old(self)
            }),
    {
        self.graph_mode = mode_up(self.graph_mode, self.is_complex, self.is_3d_data);
        self.dirty = true;
    }

    /// Moves to the previous mode on offer and asks for new data.
    pub fn mode_down(&mut self)
        ensures
            *final(self) == (PlotState {
                graph_mode: step_down(mode_order(old(self).is_complex, old(self).is_3d_data), old(self).graph_mode),
                dirty: true,
                ..*old(self)
            }),
    {
        self.graph_mode = mode_down(self.graph_mode, self.is_complex, self.is_3d_data);
        self.dirty = true;
    }

    /// Once per frame: when the state is dirty and the frame repaints, clears
    /// the flag and returns the one request for new data; otherwise nothing.
    pub fn update_res(&mut self, no_repaint: bool) -> (r: Option<Request>)
        ensures
            old(self).dirty && !no_repaint ==> r == Some(
                planned_request(old(self).graph_mode, old(self).is_3d_data, old(self).view_x, old(self).slice),
            ) && *final(self) == (PlotState { dirty: false, ..*old(self) }),
            !(old(self).dirty && !no_repaint) ==> r is None && *final(self) == *old(self),
    {
        if self.dirty && !no_repaint {
            self.dirty = false;
            let req = match self.graph_mode {
                GraphMode::Normal | GraphMode::Polar => if self.is_3d_data {
                    Request::Surface
                } else {
                    Request::Visible
                },
                GraphMode::DomainColoring => Request::Domain,
                GraphMode::Slice | GraphMode::SlicePolar => Request::Slice {
                    view_x: self.view_x,
                    slice: self.slice,
                },
                GraphMode::Flatten => Request::FreeVariable,
                GraphMode::Depth => Request::Depth,
            };
            Some(req)
        } else {
            None
        }
    }

    fn key_dirty(&self, k: &Keys) -> (r: bool)
        ensures
            r == self.keys_dirty(*k),
    {
        let is3d = self.is_3d();
        let dc = matches!(self.graph_mode, GraphMode::DomainColoring);
        let depth = matches!(self.graph_mode, GraphMode::Depth);
        let moved = if is3d {
            ((k.left || k.right || k.up || k.down) && !depth) || ((k.f || k.g) && depth)
        } else {
            k.a || k.left || k.d || k.right || ((k.w || k.up || k.s || k.down) && dc)
        };
        moved || k.q || k.e || (slice_mode(self.graph_mode) && (k.period || k.comma || k.slash))
            || (matches!(self.graph_mode, GraphMode::Flatten) && (k.h || k.j || k.m))
            || k.open_bracket || k.close_bracket || k.b || k.t
    }

    fn key_slice(&self, k: &Keys) -> (r: isize)
        ensures
            r == self.keys_slice(*k),
    {
        let in_slice = slice_mode(self.graph_mode);
        let step: isize = if k.shift { 4 } else { 1 };
        let mut slice = self.slice;
        if in_slice && k.period {
            slice = add_clamped(slice, step);
        }
        if in_slice && k.comma {
            slice = sub_clamped(slice, step);
        }
        if k.open_bracket {
            slice = halve(slice);
        }
        if k.close_bracket {
            slice = double(slice);
        }
        if k.t {
            slice = 0;
        }
        slice
    }

    fn key_mode(&self, k: &Keys) -> (r: GraphMode)
        ensures
            r == self.keys_mode(*k),
    {
        if !k.b {
            self.graph_mode
        } else if k.shift {
            mode_down(self.graph_mode, self.is_complex, self.is_3d_data)
        } else {
            mode_up(self.graph_mode, self.is_complex, self.is_3d_data)
        }
    }

    fn key_flags(&self, k: &Keys) -> (r: PlotState)
        ensures
            r == (PlotState {
                graph_mode: self.graph_mode,
                dirty: self.dirty,
                slice: self.slice,
                ..self.after_keys(*k)
            }),
    {
        let is3d = self.is_3d();
        let dc = matches!(self.graph_mode, GraphMode::DomainColoring);
        PlotState {
            graph_mode: self.graph_mode,
            is_complex: self.is_complex,
            is_3d_data: self.is_3d_data,
            dirty: self.dirty,
            view_x: self.view_x != (slice_mode(self.graph_mode) && k.slash),
            slice: self.slice,
            show: if k.i && self.is_complex { self.show.next() } else { self.show },
            lines: if k.l && !dc { self.lines.next() } else { self.lines },
            color_depth: if is3d && k.o { self.color_depth.next() } else { self.color_depth },
            ignore_bounds: self.ignore_bounds != (is3d && k.p),
            show_box: self.show_box != (is3d && k.y),
            disable_lines: self.disable_lines != k.z,
            disable_axis: self.disable_axis != k.x,
            disable_coord: self.disable_coord != k.c,
            scale_axis: self.scale_axis != k.v,
            anti_alias: self.anti_alias != k.r,
            domain_alternate: self.domain_alternate != (!is3d && k.y),
            log_scale: self.log_scale != (k.l && dc),
        }
    }

    /// Applies one frame's key presses to the state; returns whether a cached
    /// domain-colouring image has gone out of date.
    pub fn keybinds(&mut self, k: &Keys) -> (stale: bool)
        ensures
            *final(self) == old(self).after_keys(*k),
            stale == old(self).keys_stale_image(*k),
    {
        let is3d = self.is_3d();
        let dc = matches!(self.graph_mode, GraphMode::DomainColoring);
        let stale = k.r || (!is3d && k.y) || (k.l && dc);
        let mode = self.key_mode(k);
        let dirty = self.dirty || self.key_dirty(k);
        let slice = self.key_slice(k);
        let mut next = self.key_flags(k);
        next.graph_mode = mode;
        next.dirty = dirty;
        next.slice = slice;
        *self = next;
        stale
    }
}

} // verus!
