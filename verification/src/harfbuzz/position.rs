//! Positioned glyphs of one shaped run and the run's aggregate extents.

use vstd::prelude::*;

verus! {

/// Where one shaped glyph sits relative to the pen, in design units.
#[derive(Debug, Clone, Copy, PartialEq, Eq, Structural)]
pub struct HBGlyphPosition {
    pub x_advance: i32,
    pub y_advance: i32,
    pub x_offset: i32,
    pub y_offset: i32,
}

impl HBGlyphPosition {
    pub fn new(x_advance: i32, y_advance: i32, x_offset: i32, y_offset: i32) -> (r: Self)
        ensures
            r == (HBGlyphPosition { x_advance, y_advance, x_offset, y_offset }),
    {
        HBGlyphPosition { x_advance, y_advance, x_offset, y_offset }
    }

    pub fn x_advance(&self) -> (r: i32)
        ensures
            r == self.x_advance,
    {
        self.x_advance
    }

    pub fn y_advance(&self) -> (r: i32)
        ensures
            r == self.y_advance,
    {
        self.y_advance
    }

    pub fn x_offset(&self) -> (r: i32)
        ensures
            r == self.x_offset,
    {
        self.x_offset
    }

    pub fn y_offset(&self) -> (r: i32)
        ensures
            r == self.y_offset,
    {
        self.y_offset
    }
}

/// Sum of the horizontal advances of `s`.
pub open spec fn x_advance_total(s: Seq<HBGlyphPosition>) -> int
    decreases s.len(),
{
    if s.len() == 0 {
        0
    } else {
        x_advance_total(s.drop_last()) + s.last().x_advance
    }
}

/// Sum of the vertical advances of `s`.
pub open spec fn y_advance_total(s: Seq<HBGlyphPosition>) -> int
    decreases s.len(),
{
    if s.len() == 0 {
        0
    } else {
        y_advance_total(s.drop_last()) + s.last().y_advance
    }
}

/// Width of a run: every horizontal advance, plus the horizontal offset of the
/// final glyph. A run without glyphs has width 0.
pub open spec fn run_width(s: Seq<HBGlyphPosition>) -> int {
    if s.len() == 0 {
        0
    } else {
        x_advance_total(s) + s.last().x_offset
    }
}

/// Height of a run: every vertical advance, plus the vertical offset of the
/// final glyph. A run without glyphs has height 0.
pub open spec fn run_height(s: Seq<HBGlyphPosition>) -> int {
    if s.len() == 0 {
        0
    } else {
        y_advance_total(s) + s.last().y_offset
    }
}

/// Whether both extents of the run can be reported as signed 32-bit design units.
pub open spec fn extents_fit(s: Seq<HBGlyphPosition>) -> bool {
    &&& i32::MIN <= run_width(s) <= i32::MAX
    &&& i32::MIN <= run_height(s) <= i32::MAX
}

/// Both extents of a run, computed wide enough that no run can overflow them.
fn wide_extents(positions: &Vec<HBGlyphPosition>) -> (r: (i128, i128))
    ensures
        r.0 == run_width(positions@),
        r.1 == run_height(positions@),
{
    let n: usize = positions.len();
    let mut width: i128 = 0;
    let mut height: i128 = 0;
    let mut i: usize = 0;
    while i < n
        invariant
            n == positions.len(),
            i <= n,
            width == x_advance_total(positions@.take(i as int)),
            height == y_advance_total(positions@.take(i as int)),
            -(i as int) * 0x8000_0000 <= width <= (i as int) * 0x8000_0000,
            -(i as int) * 0x8000_0000 <= height <= (i as int) * 0x8000_0000,
        decreases n - i,
    {
        let p: HBGlyphPosition = positions[i];
        proof {
            assert(positions@.take(i + 1).drop_last() =~= positions@.take(i as int));
            assert(positions@.take(i + 1).last() == p);
        }
        width = width + p.x_advance as i128;
        height = height + p.y_advance as i128;
        i = i + 1;
    }
    proof {
        assert(positions@.take(n as int) =~= positions@);
    }
    if n > 0 {
        let last: HBGlyphPosition = positions[n - 1];
        width = width + last.x_offset as i128;
        height = height + last.y_offset as i128;
    }
    (width, height)
}

/// A shaped run: its glyph positions in order, with the run's width and height.
#[derive(Debug)]
pub struct HBGlyphPositions {
    positions: Vec<HBGlyphPosition>,
    width: i32,
    height: i32,
}

impl View for HBGlyphPositions {
    type V = Seq<HBGlyphPosition>;

    closed spec fn view(&self) -> Seq<HBGlyphPosition> {
        self.positions@
    }
}

impl HBGlyphPositions {
    #[verifier::type_invariant]
    spec fn extents_are_aggregates(self) -> bool {
        &&& self.width == run_width(self.positions@)
        &&& self.height == run_height(self.positions@)
    }

    /// Aggregates a run whose extents are representable.
    pub fn new(positions: Vec<HBGlyphPosition>) -> (r: Self)
        requires
            extents_fit(positions@),
        ensures
            r@ == positions@,
    {
        let (width, height): (i128, i128) = wide_extents(&positions);
        HBGlyphPositions { positions, width: width as i32, height: height as i32 }
    }

    /// Aggregates any run, or reports that an extent leaves the 32-bit range.
    pub fn try_new(positions: Vec<HBGlyphPosition>) -> (r: Option<Self>)
        ensures
            r.is_some() <==> extents_fit(positions@),
            r.is_some() ==> r.unwrap()@ == positions@,
    {
        let (width, height): (i128, i128) = wide_extents(&positions);
        if width < -0x8000_0000 || width > 0x7fff_ffff || height < -0x8000_0000 || height
            > 0x7fff_ffff {
            None
        } else {
            Some(HBGlyphPositions { positions, width: width as i32, height: height as i32 })
        }
    }

    pub fn width(&self) -> (r: i32)
        ensures
            r == run_width(self@),
    {
        proof {
            use_type_invariant(self);
        }
        self.width
    }

    pub fn height(&self) -> (r: i32)
        ensures
            r == run_height(self@),
    {
        proof {
            use_type_invariant(self);
        }
        self.height
    }

    pub fn positions(&self) -> (r: &Vec<HBGlyphPosition>)
        ensures
            r@ == self@,
    {
        &self.positions
    }
}

} // verus!
