use vstd::prelude::*;

verus! {

/// A position in window coordinates (pixels, origin at the top left).
#[derive(Clone, Copy, Debug, PartialEq, Eq, Structural)]
pub struct Point {
    pub x: i32,
    pub y: i32,
}

/// An axis-aligned rectangle: its top-left corner and its size.
#[derive(Clone, Copy, Debug, PartialEq, Eq, Structural)]
pub struct Rect {
    pub x: i32,
    pub y: i32,
    pub width: u32,
    pub height: u32,
}

impl Rect {
    /// The rectangle covers `x <= px < x + width` and `y <= py < y + height`.
    pub open spec fn covers(self, p: Point) -> bool {
        &&& self.x <= p.x < self.x + self.width
        &&& self.y <= p.y < self.y + self.height
    }

    pub fn contains(&self, p: Point) -> (r: bool)
        ensures
            r == self.covers(p),
    {
        let dx: i64 = p.x as i64 - self.x as i64;
        let dy: i64 = p.y as i64 - self.y as i64;
        0 <= dx && dx < self.width as i64 && 0 <= dy && dy < self.height as i64
    }
}

} // verus!
