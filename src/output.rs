//! Outputs and the mapping from backend pixel coordinates to the logical
//! coordinate space the space and the seat work in.
use vstd::prelude::*;

verus! {

#[allow(non_camel_case_types)]
#[derive(Clone, Copy, Debug, PartialEq, Eq, Structural)]
pub enum Transform {
    Normal,
    _90,
    _180,
    _270,
    Flipped,
    Flipped90,
    Flipped180,
    Flipped270,
}

/// Pixel size and refresh rate (in mHz) of an output.
#[derive(Clone, Copy, Debug, PartialEq, Eq, Structural)]
pub struct Mode {
    pub width: i32,
    pub height: i32,
    pub refresh: i32,
}

pub struct Output {
    pub name: String,
    pub mode: Mode,
    pub transform: Transform,
    pub scale: i32,
    pub x: i32,
    pub y: i32,
}

/// The point `(x, y)` of a `w` by `h` area after the area is transformed.
pub open spec fn transform_point_in(t: Transform, w: int, h: int, x: int, y: int) -> (int, int) {
    match t {
        Transform::Normal => (x, y),
        Transform::_90 => (h - y, x),
        Transform::_180 => (w - x, h - y),
        Transform::_270 => (y, w - x),
        Transform::Flipped => (w - x, y),
        Transform::Flipped90 => (y, x),
        Transform::Flipped180 => (x, h - y),
        Transform::Flipped270 => (h - y, w - x),
    }
}

impl Output {
    /// The logical position of the backend pixel `(px, py)`, as an integer.
    pub open spec fn logical_of(&self, px: int, py: int) -> (int, int) {
        let p = transform_point_in(self.transform, self.mode.width as int, self.mode.height as int, px, py);
        (self.x + p.0 / (self.scale as int), self.y + p.1 / (self.scale as int))
    }

    /// The logical position of the backend pixel `(px, py)` of this output:
    /// the pixel is transformed within the mode's area, divided by the scale
    /// and offset by the output's location.
    pub fn to_logical(&self, px: i32, py: i32) -> (r: (i32, i32))
        requires
            1 <= self.scale,
            0 <= px <= self.mode.width,
            0 <= py <= self.mode.height,
            i32::MIN <= self.logical_of(px as int, py as int).0 <= i32::MAX,
            i32::MIN <= self.logical_of(px as int, py as int).1 <= i32::MAX,
        ensures
            r.0 == self.logical_of(px as int, py as int).0,
            r.1 == self.logical_of(px as int, py as int).1,
    {
        let w = self.mode.width;
        let h = self.mode.height;
        let (tx, ty) = match self.transform {
            Transform::Normal => (px, py),
            Transform::_90 => (h - py, px),
            Transform::_180 => (w - px, h - py),
            Transform::_270 => (py, w - px),
            Transform::Flipped => (w - px, py),
            Transform::Flipped90 => (py, px),
            Transform::Flipped180 => (px, h - py),
            Transform::Flipped270 => (h - py, w - px),
        };
        assert(0 <= tx && 0 <= ty);
        assert(tx / self.scale <= tx) by (nonlinear_arith)
            requires 0 <= tx, 1 <= self.scale;
        assert(ty / self.scale <= ty) by (nonlinear_arith)
            requires 0 <= ty, 1 <= self.scale;
        (self.x + tx / self.scale, self.y + ty / self.scale)
    }
}

} // verus!
