use vstd::prelude::*;

verus! {

/// The seven visualisation modes of a plot.
#[derive(Clone, Copy, Debug, PartialEq, Eq, Structural)]
pub enum GraphMode {
    Normal,
    Slice,
    DomainColoring,
    Flatten,
    Depth,
    Polar,
    SlicePolar,
}

/// Which channels of a complex sample are drawn.
#[derive(Clone, Copy, Debug, PartialEq, Eq, Structural)]
pub enum Show {
    Real,
    Imag,
    Complex,
}

impl Show {
    pub open spec fn shows_real(self) -> bool {
        self is Complex || self is Real
    }

    pub open spec fn shows_imag(self) -> bool {
        self is Complex || self is Imag
    }

    /// The channel choice that follows `self` when the user cycles it.
    pub open spec fn following(self) -> Show {
        match self {
            Show::Complex => Show::Real,
            Show::Real => Show::Imag,
            Show::Imag => Show::Complex,
        }
    }

    /// Whether the real part is drawn.
    pub fn has_real(&self) -> (r: bool)
        ensures
            r == self.shows_real(),
    {
        matches!(self, Self::Complex | Self::Real)
    }

    /// Whether the imaginary part is drawn.
    pub fn imag(&self) -> (r: bool)
        ensures
            r == self.shows_imag(),
    {
        matches!(self, Self::Complex | Self::Imag)
    }

    /// Cycles complex, real only, imaginary only.
    pub fn next(&self) -> (r: Show)
        ensures
            r == self.following(),
    {
        match self {
            Show::Complex => Show::Real,
            Show::Real => Show::Imag,
            Show::Imag => Show::Complex,
        }
    }
}

/// How samples are joined on screen.
#[derive(Clone, Copy, Debug, PartialEq, Eq, Structural)]
pub enum Lines {
    Points,
    LinesPoints,
    Lines,
}

impl Lines {
    pub open spec fn has_points(self) -> bool {
        !(self is Lines)
    }

    pub open spec fn has_lines(self) -> bool {
        !(self is Points)
    }

    pub open spec fn following(self) -> Lines {
        match self {
            Lines::Lines => Lines::Points,
            Lines::Points => Lines::LinesPoints,
            Lines::LinesPoints => Lines::Lines,
        }
    }

    /// Whether a marker is drawn at each sample.
    pub fn draws_points(&self) -> (r: bool)
        ensures
            r == self.has_points(),
    {
        !matches!(self, Lines::Lines)
    }

    /// Whether consecutive samples are joined by segments.
    pub fn draws_lines(&self) -> (r: bool)
        ensures
            r == self.has_lines(),
    {
        !matches!(self, Lines::Points)
    }

    /// Cycles lines, points, lines with points.
    pub fn next(&self) -> (r: Lines)
        ensures
            r == self.following(),
    {
        match self {
            Lines::Lines => Lines::Points,
            Lines::Points => Lines::LinesPoints,
            Lines::LinesPoints => Lines::Lines,
        }
    }
}

/// What tints the colour of a 3D primitive.
#[derive(Clone, Copy, Debug, PartialEq, Eq, Structural)]
pub enum DepthColor {
    Vertical,
    Depth,
    Off,
}

impl DepthColor {
    pub open spec fn following(self) -> DepthColor {
        match self {
            DepthColor::Off => DepthColor::Vertical,
            DepthColor::Vertical => DepthColor::Depth,
            DepthColor::Depth => DepthColor::Off,
        }
    }

    /// Cycles no tint, tint by height, tint by depth.
    pub fn next(&self) -> (r: DepthColor)
        ensures
            r == self.following(),
    {
        match self {
            DepthColor::Off => DepthColor::Vertical,
            DepthColor::Vertical => DepthColor::Depth,
            DepthColor::Depth => DepthColor::Off,
        }
    }
}

/// An opaque RGB colour.
#[derive(Clone, Copy, Debug, PartialEq, Eq, Structural)]
pub struct Color {
    pub r: u8,
    pub g: u8,
    pub b: u8,
}

impl Color {
    pub fn new(r: u8, g: u8, b: u8) -> (c: Self)
        ensures
            c.r == r && c.g == g && c.b == b,
    {
        Self { r, g, b }
    }

    /// A grey: the three channels equal to `c`.
    pub fn splat(c: u8) -> (s: Self)
        ensures
            s.r == c && s.g == c && s.b == c,
    {
        Self { r: c, g: c, b: c }
    }
}

} // verus!
