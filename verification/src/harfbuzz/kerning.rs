//! Corners of a glyph at which math kerning is looked up.

use vstd::prelude::*;

verus! {

/// The corner of a glyph whose height-to-kerning table a kerning query consults.
#[derive(Debug, Clone, Copy, PartialEq, Eq, Structural)]
pub enum HBMathKern {
    TopRight,
    TopLeft,
    BottomRight,
    BottomLeft,
}

impl HBMathKern {
    /// The engine's code of this corner.
    pub open spec fn code(self) -> u32 {
        match self {
            HBMathKern::TopRight => 0,
            HBMathKern::TopLeft => 1,
            HBMathKern::BottomRight => 2,
            HBMathKern::BottomLeft => 3,
        }
    }

    /// The code under which the engine's kerning query knows this corner.
    pub fn to_hb_kern(&self) -> (r: u32)
        ensures
            r == self.code(),
    {
        match self {
            HBMathKern::TopRight => hb_kern_top_right(),
            HBMathKern::TopLeft => hb_kern_top_left(),
            HBMathKern::BottomRight => hb_kern_bottom_right(),
            HBMathKern::BottomLeft => hb_kern_bottom_left(),
        }
    }

    /// Distinct corners have distinct codes.
    pub proof fn lemma_codes_are_distinct(a: HBMathKern, b: HBMathKern)
        requires
            a != b,
        ensures
            a.code() != b.code(),
    {
    }
}

/// `harfbuzz_sys::HB_OT_MATH_KERN_TOP_RIGHT`: the engine's code of the top right corner, 0.
#[verifier::external_body]
fn hb_kern_top_right() -> (r: u32)
    ensures
        r == 0,
{
    harfbuzz_sys::HB_OT_MATH_KERN_TOP_RIGHT
}

/// `harfbuzz_sys::HB_OT_MATH_KERN_TOP_LEFT`: the engine's code of the top left corner, 1.
#[verifier::external_body]
fn hb_kern_top_left() -> (r: u32)
    ensures
        r == 1,
{
    harfbuzz_sys::HB_OT_MATH_KERN_TOP_LEFT
}

/// `harfbuzz_sys::HB_OT_MATH_KERN_BOTTOM_RIGHT`: the engine's code of the bottom right corner, 2.
#[verifier::external_body]
fn hb_kern_bottom_right() -> (r: u32)
    ensures
        r == 2,
{
    harfbuzz_sys::HB_OT_MATH_KERN_BOTTOM_RIGHT
}

/// `harfbuzz_sys::HB_OT_MATH_KERN_BOTTOM_LEFT`: the engine's code of the bottom left corner, 3.
#[verifier::external_body]
fn hb_kern_bottom_left() -> (r: u32)
    ensures
        r == 3,
{
    harfbuzz_sys::HB_OT_MATH_KERN_BOTTOM_LEFT
}

} // verus!
