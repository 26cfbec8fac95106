//! Decisions around the queries of a shaping face: what is handed to the
//! engine, and how its answers are read.

use crate::encoding::{is_representable, representable};
use crate::harfbuzz::direction::HBDirection;
use crate::harfbuzz::position::{extents_fit, run_height, run_width, HBGlyphPosition};
use vstd::prelude::*;

verus! {

/// Reads a yes-or-no answer of the engine, which says no with 0 and yes with
/// anything else.
pub fn hb_true(answer: i32) -> (r: bool)
    ensures
        r == (answer != 0),
{
    answer != 0
}

/// Reads the engine's answer to a glyph lookup. A code point without a glyph
/// is an ordinary outcome: the answer is then `None`, whatever `glyph` holds.
pub fn glyph_index(found: i32, glyph: u32) -> (r: Option<u32>)
    ensures
        r == if found != 0 {
            Some(glyph)
        } else {
            None
        },
{
    if hb_true(found) {
        Some(glyph)
    } else {
        None
    }
}

/// What is handed to the engine to have one run of text shaped. The text
/// goes in whole: the run starts at the first byte and spans all of them.
#[derive(Debug, Clone, Copy, PartialEq, Eq, Structural)]
pub struct ShapeRequest {
    pub direction: u32,
    pub text_length: i32,
    pub item_offset: u32,
    pub item_length: i32,
}

/// The request that shapes the whole of `text` as a single run in
/// `direction`, if the engine can take the text: it takes a text without zero
/// bytes whose length it can count.
pub open spec fn shape_request_of(text: Seq<u8>, direction: HBDirection) -> Option<ShapeRequest> {
    if representable(text) && text.len() <= i32::MAX {
        Some(
            ShapeRequest {
                direction: direction.code(),
                text_length: text.len() as i32,
                item_offset: 0,
                item_length: text.len() as i32,
            },
        )
    } else {
        None
    }
}

/// Prepares the shaping of `text`, or tells that the engine cannot take it.
pub fn shape_request(text: &[u8], direction: &HBDirection) -> (r: Option<ShapeRequest>)
    ensures
        r == shape_request_of(text@, *direction),
{
    let n: usize = text.len();
    if n > 0x7fff_ffff {
        return None;
    }
    if is_representable(text) {
        Some(
            ShapeRequest {
                direction: direction.to_hb_dir(),
                text_length: n as i32,
                item_offset: 0,
                item_length: n as i32,
            },
        )
    } else {
        None
    }
}

/// The empty text can always be shaped, in any direction, and a run without
/// glyphs has width 0 and height 0.
pub proof fn lemma_empty_text_measures_zero(direction: HBDirection)
    ensures
        shape_request_of(Seq::<u8>::empty(), direction) == Some(
            ShapeRequest { direction: direction.code(), text_length: 0, item_offset: 0, item_length: 0 },
        ),
        extents_fit(Seq::<HBGlyphPosition>::empty()),
        run_width(Seq::<HBGlyphPosition>::empty()) == 0,
        run_height(Seq::<HBGlyphPosition>::empty()) == 0,
{
}

} // verus!
