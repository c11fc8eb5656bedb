use vstd::prelude::*;

verus! {

/// Per-press increment of the red channel, in thousandths (0.15).
pub const CLEAR_R_DELTA: i64 = 150;
/// Per-press increment of the green channel, in thousandths (0.1).
pub const CLEAR_G_DELTA: i64 = 100;
/// Per-press increment of the blue channel, in thousandths (0.2).
pub const CLEAR_B_DELTA: i64 = 200;

/// The frame's clear color. Channels are kept in thousandths of a display
/// unit (1000 is full intensity), so that the per-press accumulation is
/// exact; the host divides by 1000 when it hands the color to the renderer.
/// Channels accumulate additively and are deliberately not clamped.
#[derive(Clone, Copy, Debug, PartialEq, Eq, Structural)]
pub struct ClearColor {
    pub r: i64,
    pub g: i64,
    pub b: i64,
    pub a: i64,
}

/// Mathematical model of a clear color: unbounded channel values.
pub ghost struct ColorModel {
    pub r: int,
    pub g: int,
    pub b: int,
    pub a: int,
}

impl View for ClearColor {
    type V = ColorModel;

    open spec fn view(&self) -> ColorModel {
        ColorModel { r: self.r as int, g: self.g as int, b: self.b as int, a: self.a as int }
    }
}

/// The fixed default the machine starts from: (0.1, 0.2, 0.2, 1.0).
pub open spec fn spec_default_color() -> ColorModel {
    ColorModel { r: 100, g: 200, b: 200, a: 1000 }
}

/// One primary-pointer press shifts the color by the fixed deltas; the alpha
/// channel never moves.
pub open spec fn shifted(c: ColorModel) -> ColorModel {
    ColorModel {
        r: c.r + CLEAR_R_DELTA,
        g: c.g + CLEAR_G_DELTA,
        b: c.b + CLEAR_B_DELTA,
        a: c.a,
    }
}

impl ColorModel {
    /// The stored channels can take one more shift without leaving `i64`.
    /// The deltas are positive, so only the upper end needs room.
    pub open spec fn has_room(self) -> bool {
        &&& self.r + CLEAR_R_DELTA <= i64::MAX
        &&& self.g + CLEAR_G_DELTA <= i64::MAX
        &&& self.b + CLEAR_B_DELTA <= i64::MAX
    }
}

impl ClearColor {
    /// The color every fresh state starts with.
    pub fn start() -> (c: ClearColor)
        ensures
            c@ == spec_default_color(),
    {
        ClearColor { r: 100, g: 200, b: 200, a: 1000 }
    }
}

} // verus!
