//! The viewport rectangle and its mathematical image.

use vstd::prelude::*;

verus! {

/// The viewport rectangle, as the host supplies it: origin and size in
/// screen cells.
#[derive(Clone, Copy)]
pub struct Rect {
    pub x: u16,
    pub y: u16,
    pub width: u16,
    pub height: u16,
}

/// Mathematical image of a `Rect`.
#[verifier::ext_equal]
pub ghost struct RectView {
    pub x: int,
    pub y: int,
    pub w: int,
    pub h: int,
}

impl View for Rect {
    type V = RectView;

    open spec fn view(&self) -> RectView {
        RectView {
            x: self.x as int,
            y: self.y as int,
            w: self.width as int,
            h: self.height as int,
        }
    }
}

impl Rect {
    pub fn new(x: u16, y: u16, width: u16, height: u16) -> (r: Rect)
        ensures
            r@ == (RectView { x: x as int, y: y as int, w: width as int, h: height as int }),
    {
        Rect { x, y, width, height }
    }
}

/// The width the scroll arithmetic works with: at least one cell, so a
/// degenerate viewport cannot underflow a clamp.
pub open spec fn eff_w(a: RectView) -> int {
    if a.w < 1 {
        1
    } else {
        a.w
    }
}

/// The height the scroll arithmetic works with; see `eff_w`.
pub open spec fn eff_h(a: RectView) -> int {
    if a.h < 1 {
        1
    } else {
        a.h
    }
}

/// The stored viewport never reaches past u16 screen space, so every derived
/// screen coordinate fits in a `u16`.
pub open spec fn area_ok(a: RectView) -> bool {
    &&& 0 <= a.x && 0 <= a.y && 0 <= a.w && 0 <= a.h
    &&& a.x + a.w <= u16::MAX
    &&& a.y + a.h <= u16::MAX
}

} // verus!
