//! Text and stretch directions.

use vstd::prelude::*;

verus! {

/// Direction of a run of text, or the axis along which a glyph is stretched.
#[derive(Debug, Clone, Copy, PartialEq, Eq, Structural)]
pub enum HBDirection {
    LTR,
    RTL,
    TTB,
    BTT,
}

impl HBDirection {
    /// The engine's code of this direction.
    pub open spec fn code(self) -> u32 {
        match self {
            HBDirection::LTR => 4,
            HBDirection::RTL => 5,
            HBDirection::TTB => 6,
            HBDirection::BTT => 7,
        }
    }

    /// The code under which the engine's queries know this direction.
    pub fn to_hb_dir(&self) -> (r: u32)
        ensures
            r == self.code(),
    {
        match self {
            HBDirection::LTR => hb_direction_ltr(),
            HBDirection::RTL => hb_direction_rtl(),
            HBDirection::TTB => hb_direction_ttb(),
            HBDirection::BTT => hb_direction_btt(),
        }
    }

    /// Distinct directions have distinct codes, and none has the code 0, which
    /// the engine reserves for an invalid direction.
    pub proof fn lemma_codes_are_distinct(a: HBDirection, b: HBDirection)
        ensures
            a != b ==> a.code() != b.code(),
            a.code() != 0,
    {
    }
}

/// `harfbuzz_sys::HB_DIRECTION_LTR`: the engine's code for left to right, 4.
#[verifier::external_body]
fn hb_direction_ltr() -> (r: u32)
    ensures
        r == 4,
{
    harfbuzz_sys::HB_DIRECTION_LTR
}

/// `harfbuzz_sys::HB_DIRECTION_RTL`: the engine's code for right to left, 5.
#[verifier::external_body]
fn hb_direction_rtl() -> (r: u32)
    ensures
        r == 5,
{
    harfbuzz_sys::HB_DIRECTION_RTL
}

/// `harfbuzz_sys::HB_DIRECTION_TTB`: the engine's code for top to bottom, 6.
#[verifier::external_body]
fn hb_direction_ttb() -> (r: u32)
    ensures
        r == 6,
{
    harfbuzz_sys::HB_DIRECTION_TTB
}

/// `harfbuzz_sys::HB_DIRECTION_BTT`: the engine's code for bottom to top, 7.
#[verifier::external_body]
fn hb_direction_btt() -> (r: u32)
    ensures
        r == 7,
{
    harfbuzz_sys::HB_DIRECTION_BTT
}

} // verus!
