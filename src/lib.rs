//! Projection and rendering core of an interactive function plotter.
//!
//! The library holds the discrete part of the plotter: the graph-mode state
//! machine, the level-of-detail request protocol, the interaction state that
//! key presses drive, the case analysis of box clipping, the painter's-order
//! compositor and the colour palettes.
pub mod types;
pub mod compositor;
pub mod cube;
pub mod mode;
pub mod render;
pub mod sidebar;
pub mod state;
