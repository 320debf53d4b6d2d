//! Laser points and their wire forms.
use vstd::prelude::*;

verus! {

/// A point with 8-bit colour and intensity, 8 bytes on the wire.
#[derive(Debug, Clone, Copy, PartialEq, Eq, Structural)]
pub struct PointXyrgbi {
    pub x: i16,
    pub y: i16,
    pub r: u8,
    pub g: u8,
    pub b: u8,
    pub i: u8,
}

/// A point with 16-bit colour, 10 bytes on the wire.
#[derive(Debug, Clone, Copy, PartialEq, Eq, Structural)]
pub struct PointXyrgbHighRes {
    pub x: i16,
    pub y: i16,
    pub r: u16,
    pub g: u16,
    pub b: u16,
}

/// A point with 16-bit colour, intensity and four user channels, 20 bytes on the wire.
#[derive(Debug, Clone, Copy, PartialEq, Eq, Structural)]
pub struct PointExtended {
    pub x: i16,
    pub y: i16,
    pub r: u16,
    pub g: u16,
    pub b: u16,
    pub i: u16,
    pub u1: u16,
    pub u2: u16,
    pub u3: u16,
    pub u4: u16,
}

impl PointXyrgbi {
    /// The dark point at the centre.
    pub open spec fn blank() -> PointXyrgbi {
        PointXyrgbi { x: 0, y: 0, r: 0, g: 0, b: 0, i: 0 }
    }

    /// A point from its wire values.
    pub fn new(x: i16, y: i16, r: u8, g: u8, b: u8, i: u8) -> (p: PointXyrgbi)
        ensures
            p == (PointXyrgbi { x, y, r, g, b, i }),
    {
        PointXyrgbi { x, y, r, g, b, i }
    }
}

impl Default for PointXyrgbi {
    fn default() -> (p: PointXyrgbi)
        ensures
            p == PointXyrgbi::blank(),
    {
        PointXyrgbi { x: 0, y: 0, r: 0, g: 0, b: 0, i: 0 }
    }
}

impl PointXyrgbHighRes {
    /// The dark point at the centre.
    pub open spec fn blank() -> PointXyrgbHighRes {
        PointXyrgbHighRes { x: 0, y: 0, r: 0, g: 0, b: 0 }
    }
}

impl Default for PointXyrgbHighRes {
    fn default() -> (p: PointXyrgbHighRes)
        ensures
            p == PointXyrgbHighRes::blank(),
    {
        PointXyrgbHighRes { x: 0, y: 0, r: 0, g: 0, b: 0 }
    }
}

impl PointExtended {
    /// The dark point at the centre.
    pub open spec fn blank() -> PointExtended {
        PointExtended { x: 0, y: 0, r: 0, g: 0, b: 0, i: 0, u1: 0, u2: 0, u3: 0, u4: 0 }
    }
}

impl Default for PointExtended {
    fn default() -> (p: PointExtended)
        ensures
            p == PointExtended::blank(),
    {
        PointExtended { x: 0, y: 0, r: 0, g: 0, b: 0, i: 0, u1: 0, u2: 0, u3: 0, u4: 0 }
    }
}

/// A laser point as it goes out in each of the wire forms.
///
/// The caller scales floating-point coordinates and colours once, when it makes the point.
#[derive(Debug, Clone, Copy, PartialEq, Eq, Structural)]
pub struct LaserPoint {
    pub xyrgbi: PointXyrgbi,
    pub high_res: PointXyrgbHighRes,
    pub extended: PointExtended,
}

} // verus!
