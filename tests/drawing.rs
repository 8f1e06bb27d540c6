use rupl::cube::{adjacent, corner_signs, cube_edges, edge_axis, edge_labelled, Axis};
use rupl::render::{
    alt_palette, cell_index, grid_neighbors, grid_side, hsv_sector, is_3d_data, main_palette,
    palette_color, renderer, segment_kind, GridKind, Renderer, Segment,
};
use rupl::sidebar::end_word;
use rupl::types::{Color, DepthColor, GraphMode, Lines, Show};

#[test]
fn clip_cases() {
    assert_eq!(segment_kind(true, true), Some(Segment::Direct));
    // a segment from (0,0,0) inside the box to (2,0,0) outside is clipped at its far end
    assert_eq!(segment_kind(false, true), Some(Segment::ClipCurrent));
    assert_eq!(segment_kind(true, false), Some(Segment::ClipPrevious));
    assert_eq!(segment_kind(false, false), None);
}

#[test]
fn renderers_per_grid_and_mode() {
    assert_eq!(renderer(GridKind::Width, GraphMode::Normal), Some(Renderer::Curve { polar: false }));
    assert_eq!(renderer(GridKind::Coord, GraphMode::Polar), Some(Renderer::Curve { polar: true }));
    assert_eq!(renderer(GridKind::Width, GraphMode::Flatten), Some(Renderer::Parametric));
    assert_eq!(renderer(GridKind::Coord, GraphMode::Depth), Some(Renderer::Path3D));
    assert_eq!(renderer(GridKind::Width, GraphMode::DomainColoring), None);
    assert_eq!(renderer(GridKind::Width3D, GraphMode::Normal), Some(Renderer::Surface { polar: false }));
    assert_eq!(renderer(GridKind::Width3D, GraphMode::SlicePolar), Some(Renderer::Curve { polar: true }));
    assert_eq!(renderer(GridKind::Width3D, GraphMode::DomainColoring), Some(Renderer::DomainImage));
    assert_eq!(renderer(GridKind::Coord3D, GraphMode::Normal), Some(Renderer::Points3D { polar: false }));
    assert_eq!(renderer(GridKind::Coord3D, GraphMode::Slice), None);
}

#[test]
fn three_dimensional_data() {
    assert!(!is_3d_data(&vec![]));
    assert!(!is_3d_data(&vec![GridKind::Width, GridKind::Coord]));
    assert!(is_3d_data(&vec![GridKind::Width, GridKind::Coord3D]));
    assert!(is_3d_data(&vec![GridKind::Width3D]));
}

#[test]
fn square_grid_side() {
    assert_eq!(grid_side(0), 0);
    assert_eq!(grid_side(1), 1);
    assert_eq!(grid_side(3), 1);
    assert_eq!(grid_side(10), 3);
    assert_eq!(grid_side(16), 4);
    assert_eq!(grid_side(65536), 256);
    assert_eq!(grid_side(usize::MAX), 4294967295);
}

#[test]
fn grid_walk_neighbours() {
    assert_eq!(grid_neighbors(0, 3), (None, None));
    assert_eq!(grid_neighbors(2, 3), (Some(1), None));
    assert_eq!(grid_neighbors(3, 3), (None, Some(0)));
    assert_eq!(grid_neighbors(4, 3), (Some(3), Some(1)));
}

#[test]
fn grid_cells() {
    assert_eq!(cell_index(2, 1, 3, 9), Some(5));
    assert_eq!(cell_index(0, 3, 3, 9), None);
    assert_eq!(cell_index(1, usize::MAX, 2, 9), None);
    assert_eq!(cell_index(usize::MAX, 1, 1, usize::MAX), None);
}

#[test]
fn palettes_repeat() {
    let main = main_palette();
    let alt = alt_palette();
    assert_eq!(main.len(), 6);
    assert_eq!(palette_color(&main, 0), Color::new(255, 85, 85));
    assert_eq!(palette_color(&main, 7), Color::new(85, 85, 255));
    assert_eq!(palette_color(&alt, 5), Color::new(170, 170, 0));
    assert_eq!(Color::splat(220), Color { r: 220, g: 220, b: 220 });
}

#[test]
fn hsv_sectors() {
    let (v, p, q, t) = (1.0f64, 0.25, 0.5, 0.75);
    assert_eq!(hsv_sector(0, v, p, q, t), (v, t, p));
    assert_eq!(hsv_sector(1, v, p, q, t), (q, v, p));
    assert_eq!(hsv_sector(2, v, p, q, t), (p, v, t));
    assert_eq!(hsv_sector(3, v, p, q, t), (p, q, v));
    assert_eq!(hsv_sector(4, v, p, q, t), (t, p, v));
    assert_eq!(hsv_sector(5, v, p, q, t), (v, p, q));
    // a full turn of hue lands in the first sector again
    assert_eq!(hsv_sector(6, v, p, q, t), (v, t, p));
}

#[test]
fn channel_and_style_cycles() {
    assert!(Show::Complex.has_real() && Show::Complex.imag());
    assert!(Show::Real.has_real() && !Show::Real.imag());
    assert!(!Show::Imag.has_real() && Show::Imag.imag());
    assert_eq!(Show::Complex.next().next().next(), Show::Complex);
    assert_eq!(Lines::Lines.next(), Lines::Points);
    assert_eq!(Lines::Points.next(), Lines::LinesPoints);
    assert!(Lines::LinesPoints.draws_points() && Lines::LinesPoints.draws_lines());
    assert!(!Lines::Lines.draws_points() && !Lines::Points.draws_lines());
    assert_eq!(DepthColor::Off.next(), DepthColor::Vertical);
    assert_eq!(DepthColor::Depth.next(), DepthColor::Off);
}

#[test]
fn box_edges() {
    let edges = cube_edges();
    assert_eq!(edges.len(), 12);
    for (k, &(i, j)) in edges.iter().enumerate() {
        let bit = match edge_axis(k) {
            Axis::X => 4,
            Axis::Y => 2,
            Axis::Z => 1,
        };
        assert_eq!(i ^ j, bit);
        assert!(adjacent(i, j) && adjacent(j, i));
    }
    assert!(!adjacent(0, 3));
    assert!(!adjacent(0, 7));
    assert_eq!(corner_signs(0), (-1, -1, -1));
    assert_eq!(corner_signs(5), (1, -1, 1));
    assert!(edge_labelled(0, 4, Axis::X, 4, 1));
    assert!(!edge_labelled(0, 4, Axis::Z, 4, 1));
    assert!(edge_labelled(0, 1, Axis::Z, 4, 1));
}

#[test]
fn word_ends() {
    for c in ['(', '{', '[', ')', '}', ']', '+', '-', '*', '/', '^', '<', '=', '>', '|', '&', '!', '±', '%', ';', ','] {
        assert!(end_word(c));
    }
    for c in ['a', 'x', '1', ' ', '.', '_'] {
        assert!(!end_word(c));
    }
}
