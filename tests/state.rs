use rupl::state::{Keys, PlotState, Request};
use rupl::types::{DepthColor, GraphMode, Lines, Show};

fn no_keys() -> Keys {
    Keys {
        shift: false,
        a: false,
        d: false,
        w: false,
        s: false,
        left: false,
        right: false,
        up: false,
        down: false,
        q: false,
        e: false,
        f: false,
        g: false,
        h: false,
        j: false,
        m: false,
        z: false,
        x: false,
        c: false,
        v: false,
        r: false,
        p: false,
        o: false,
        y: false,
        l: false,
        i: false,
        b: false,
        t: false,
        period: false,
        comma: false,
        slash: false,
        open_bracket: false,
        close_bracket: false,
    }
}

#[test]
fn new_state_defaults() {
    let st = PlotState::new(true, false);
    assert_eq!(st.graph_mode, GraphMode::Normal);
    assert!(!st.dirty);
    assert_eq!(st.slice, 0);
    assert!(st.view_x);
    assert_eq!(st.show, Show::Complex);
    assert_eq!(st.lines, Lines::Lines);
    assert_eq!(st.color_depth, DepthColor::Off);
    assert!(st.show_box && st.anti_alias && st.domain_alternate);
    assert!(!st.log_scale && !st.ignore_bounds);
    assert!(!st.is_3d());
}

#[test]
fn request_only_when_dirty_and_once() {
    let mut st = PlotState::new(false, false);
    assert_eq!(st.update_res(false), None);
    st.mark_dirty();
    assert_eq!(st.update_res(true), None);
    assert!(st.dirty);
    assert_eq!(st.update_res(false), Some(Request::Visible));
    assert!(!st.dirty);
    assert_eq!(st.update_res(false), None);
}

#[test]
fn request_per_mode() {
    let cases = [
        (GraphMode::Normal, true, Request::Surface),
        (GraphMode::Polar, true, Request::Surface),
        (GraphMode::Normal, false, Request::Visible),
        (GraphMode::Polar, false, Request::Visible),
        (GraphMode::DomainColoring, true, Request::Domain),
        (GraphMode::Slice, true, Request::Slice { view_x: true, slice: 0 }),
        (GraphMode::SlicePolar, true, Request::Slice { view_x: true, slice: 0 }),
        (GraphMode::Flatten, false, Request::FreeVariable),
        (GraphMode::Depth, false, Request::Depth),
    ];
    for (mode, is_3d_data, want) in cases {
        let mut st = PlotState::new(true, is_3d_data);
        st.set_mode(mode);
        assert!(st.dirty);
        assert_eq!(st.update_res(false), Some(want));
    }
}

#[test]
fn mode_key_cycles_and_marks_dirty() {
    let mut st = PlotState::new(true, true);
    let mut k = no_keys();
    k.b = true;
    st.keybinds(&k);
    assert_eq!(st.graph_mode, GraphMode::Polar);
    assert!(st.dirty);
    k.shift = true;
    st.keybinds(&k);
    st.keybinds(&k);
    assert_eq!(st.graph_mode, GraphMode::DomainColoring);
    assert!(!st.is_3d());
    st.mode_up();
    assert_eq!(st.graph_mode, GraphMode::Normal);
    assert!(st.is_3d());
    st.mode_down();
    assert_eq!(st.graph_mode, GraphMode::DomainColoring);
}

#[test]
fn slice_keys_step_and_clamp() {
    let mut st = PlotState::new(false, true);
    st.set_mode(GraphMode::Slice);
    st.update_res(false);
    let mut k = no_keys();
    k.period = true;
    st.keybinds(&k);
    assert_eq!(st.slice, 1);
    assert!(st.dirty);
    k.shift = true;
    st.keybinds(&k);
    assert_eq!(st.slice, 5);
    let mut k = no_keys();
    k.comma = true;
    k.shift = true;
    st.keybinds(&k);
    st.keybinds(&k);
    assert_eq!(st.slice, -3);
    // halving rounds toward zero
    let mut k = no_keys();
    k.open_bracket = true;
    st.keybinds(&k);
    assert_eq!(st.slice, -1);
    let mut k = no_keys();
    k.slash = true;
    st.keybinds(&k);
    assert!(!st.view_x);
    assert_eq!(st.update_res(false), Some(Request::Slice { view_x: false, slice: -1 }));
    st.slice = isize::MAX - 2;
    let mut k = no_keys();
    k.period = true;
    k.shift = true;
    st.keybinds(&k);
    assert_eq!(st.slice, isize::MAX);
    let mut k = no_keys();
    k.close_bracket = true;
    st.keybinds(&k);
    assert_eq!(st.slice, isize::MAX);
    let mut k = no_keys();
    k.t = true;
    st.keybinds(&k);
    assert_eq!(st.slice, 0);
}

#[test]
fn slice_keys_ignored_outside_slice_modes() {
    let mut st = PlotState::new(false, true);
    let mut k = no_keys();
    k.period = true;
    k.slash = true;
    st.keybinds(&k);
    assert_eq!(st.slice, 0);
    assert!(st.view_x);
    assert!(!st.dirty);
}

#[test]
fn toggles_and_cycles() {
    let mut st = PlotState::new(false, false);
    let mut k = no_keys();
    k.z = true;
    k.x = true;
    k.c = true;
    k.v = true;
    k.l = true;
    k.i = true;
    let stale = st.keybinds(&k);
    assert!(!stale);
    assert!(st.disable_lines && st.disable_axis && st.disable_coord && st.scale_axis);
    assert_eq!(st.lines, Lines::Points);
    // the channel choice only cycles for complex data
    assert_eq!(st.show, Show::Complex);
    assert!(!st.dirty);
    let mut k = no_keys();
    k.r = true;
    assert!(st.keybinds(&k));
    assert!(!st.anti_alias);
}

#[test]
fn keys_in_3d_view() {
    let mut st = PlotState::new(true, true);
    let mut k = no_keys();
    k.o = true;
    k.p = true;
    k.y = true;
    k.i = true;
    let stale = st.keybinds(&k);
    assert!(!stale);
    assert_eq!(st.color_depth, DepthColor::Vertical);
    assert!(st.ignore_bounds);
    assert!(!st.show_box);
    assert!(st.domain_alternate);
    assert_eq!(st.show, Show::Real);
    let mut k = no_keys();
    k.left = true;
    st.keybinds(&k);
    assert!(st.dirty);
}

#[test]
fn domain_coloring_keys() {
    let mut st = PlotState::new(true, true);
    st.set_mode(GraphMode::DomainColoring);
    st.update_res(false);
    let mut k = no_keys();
    k.l = true;
    k.y = true;
    assert!(st.keybinds(&k));
    assert!(st.log_scale);
    assert_eq!(st.lines, Lines::Lines);
    assert!(!st.domain_alternate);
    assert!(!st.dirty);
    let mut k = no_keys();
    k.w = true;
    st.keybinds(&k);
    assert!(st.dirty);
}

#[test]
fn depth_mode_moves() {
    let mut st = PlotState::new(true, false);
    st.set_mode(GraphMode::Depth);
    st.update_res(false);
    let mut k = no_keys();
    k.left = true;
    st.keybinds(&k);
    assert!(!st.dirty);
    let mut k = no_keys();
    k.f = true;
    st.keybinds(&k);
    assert!(st.dirty);
}

#[test]
fn flatten_range_keys() {
    let mut st = PlotState::new(true, false);
    st.set_mode(GraphMode::Flatten);
    assert_eq!(st.update_res(false), Some(Request::FreeVariable));
    let mut k = no_keys();
    k.h = true;
    st.keybinds(&k);
    assert!(st.dirty);
}

#[test]
fn setters_record_data_kind() {
    let mut st = PlotState::new(false, false);
    st.set_is_complex(true);
    st.set_is_3d_data(true);
    assert!(st.is_complex && st.is_3d_data);
    assert!(st.is_3d());
    assert!(!st.dirty);
}
