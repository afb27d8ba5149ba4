//! The test picture of a producer: a grid with a cross in its middle.
//!
//! Where a pixel lies in logical units is worked out by the host; the colour that
//! follows is decided here.

use vstd::prelude::*;

use crate::frame::Bgra;

verus! {

/// What lies under a pixel.
#[derive(Debug, Clone, Copy, PartialEq, Eq, Structural)]
pub struct GridCell {
    /// The red and green of the ground there.
    pub r: u8,
    pub g: u8,
    /// A thin line.
    pub minor: bool,
    /// A thick line.
    pub major: bool,
    /// The upright bar of the cross.
    pub upright: bool,
    /// The crossbar.
    pub crossbar: bool,
}

/// A brightness raised by a thin line.
pub open spec fn raised(v: u8) -> u8 {
    if v > 231 {
        255
    } else {
        (v + 24) as u8
    }
}

/// The colour of a pixel: the cross covers thick lines, those cover thin lines, and
/// thin lines brighten the ground.
pub open spec fn cell_colour(c: GridCell) -> Bgra {
    if c.upright && c.crossbar {
        Bgra { b: 255, g: 255, r: 255, a: 255 }
    } else if c.crossbar {
        Bgra { b: 48, g: 255, r: 48, a: 255 }
    } else if c.upright {
        Bgra { b: 48, g: 48, r: 255, a: 255 }
    } else if c.major {
        Bgra { b: 190, g: 190, r: 190, a: 255 }
    } else if c.minor {
        Bgra { b: 69, g: raised(c.g), r: raised(c.r), a: 255 }
    } else {
        Bgra { b: 45, g: c.g, r: c.r, a: 255 }
    }
}

/// The colour of a pixel.
pub fn grid_colour(c: GridCell) -> (r: Bgra)
    ensures
        r == cell_colour(c),
{
    let mut colour = Bgra { b: 45, g: c.g, r: c.r, a: 255 };
    if c.minor {
        colour.r = colour.r.saturating_add(24);
        colour.g = colour.g.saturating_add(24);
        colour.b = colour.b.saturating_add(24);
    }
    if c.major {
        colour.r = 190;
        colour.g = 190;
        colour.b = 190;
    }
    if c.upright {
        colour.r = 255;
        colour.g = 48;
        colour.b = 48;
    }
    if c.crossbar {
        colour.r = 48;
        colour.g = 255;
        colour.b = 48;
    }
    if c.upright && c.crossbar {
        colour.r = 255;
        colour.g = 255;
        colour.b = 255;
    }
    colour
}

} // verus!
