//! Stretchy glyphs: the windowed queries that read a glyph's stretch data, and
//! the sequence of pre-drawn variants of a glyph.

use crate::harfbuzz::direction::HBDirection;
use vstd::prelude::*;

verus! {

/// One request to the engine for a window of a glyph's stretch data: up to
/// `capacity` elements, the first of them at `start_offset`. Whatever the
/// window, the engine answers with the number of elements that the glyph has.
#[derive(Debug, Clone, Copy, PartialEq, Eq, Structural)]
pub struct StretchQuery {
    pub glyph_index: u32,
    pub direction: u32,
    pub start_offset: u32,
    pub capacity: u32,
}

impl StretchQuery {
    /// The request that only counts: an empty window at the start.
    pub open spec fn probe_of(glyph_index: u32, direction: HBDirection) -> StretchQuery {
        StretchQuery { glyph_index, direction: direction.code(), start_offset: 0, capacity: 0 }
    }

    /// The request for the single element at `at`.
    pub open spec fn fetch_of(glyph_index: u32, direction: HBDirection, at: u32) -> StretchQuery {
        StretchQuery { glyph_index, direction: direction.code(), start_offset: at, capacity: 1 }
    }

    pub fn probe(glyph_index: u32, direction: &HBDirection) -> (r: Self)
        ensures
            r == Self::probe_of(glyph_index, *direction),
    {
        StretchQuery { glyph_index, direction: direction.to_hb_dir(), start_offset: 0, capacity: 0 }
    }

    pub fn fetch(glyph_index: u32, direction: &HBDirection, at: u32) -> (r: Self)
        ensures
            r == Self::fetch_of(glyph_index, *direction, at),
    {
        StretchQuery { glyph_index, direction: direction.to_hb_dir(), start_offset: at, capacity: 1 }
    }
}

/// A pre-drawn alternate of a glyph, offered as a larger version of it.
/// Two variants are equal when glyph and advance are.
#[derive(Debug, Clone, Copy, PartialEq, Eq, Structural)]
pub struct HBGlyphVariant {
    pub glyph: u32,
    pub advance: i32,
}

impl HBGlyphVariant {
    pub fn new(glyph: u32, advance: i32) -> (r: Self)
        ensures
            r == (HBGlyphVariant { glyph, advance }),
    {
        HBGlyphVariant { glyph, advance }
    }

    pub fn glyph_index(&self) -> (r: u32)
        ensures
            r == self.glyph,
    {
        self.glyph
    }

    pub fn advance(&self) -> (r: i32)
        ensures
            r == self.advance,
    {
        self.advance
    }
}

/// What can be observed of a variant sequence: how many variants the glyph
/// has, and how many of them have been asked for.
pub ghost struct VariantSequence {
    pub glyph_index: u32,
    pub direction: HBDirection,
    pub len: u32,
    pub taken: u32,
}

impl VariantSequence {
    pub open spec fn wf(self) -> bool {
        self.taken <= self.len
    }

    /// The sequence of a glyph with `len` variants, none of them taken.
    pub open spec fn fresh(glyph_index: u32, direction: HBDirection, len: u32) -> VariantSequence {
        VariantSequence { glyph_index, direction, len, taken: 0 }
    }

    /// The request that the next step makes, if it makes one.
    pub open spec fn pending(self) -> Option<StretchQuery> {
        if self.taken < self.len {
            Some(StretchQuery::fetch_of(self.glyph_index, self.direction, self.taken))
        } else {
            None
        }
    }

    /// The sequence after one step.
    pub open spec fn advance(self) -> VariantSequence {
        if self.taken < self.len {
            VariantSequence { taken: (self.taken + 1) as u32, ..self }
        } else {
            self
        }
    }

    /// The sequence after `steps` steps.
    pub open spec fn after(self, steps: nat) -> VariantSequence
        decreases steps,
    {
        if steps == 0 {
            self
        } else {
            self.advance().after((steps - 1) as nat)
        }
    }

    /// How many of the next `steps` steps make a request.
    pub open spec fn yielded(self, steps: nat) -> nat
        decreases steps,
    {
        if steps == 0 {
            0
        } else {
            (if self.pending().is_some() {
                1nat
            } else {
                0nat
            }) + self.advance().yielded((steps - 1) as nat)
        }
    }

    /// Steps move the sequence forward by one variant each until the end and
    /// leave everything else as it was: the length in particular does not
    /// depend on how much has been consumed.
    pub proof fn lemma_after(self, steps: nat)
        requires
            self.wf(),
        ensures
            self.after(steps).wf(),
            self.after(steps).len == self.len,
            self.after(steps).glyph_index == self.glyph_index,
            self.after(steps).direction == self.direction,
            self.after(steps).taken == if self.taken + steps <= self.len {
                self.taken + steps
            } else {
                self.len as int
            },
        decreases steps,
    {
        if steps > 0 {
            self.advance().lemma_after((steps - 1) as nat);
        }
    }

    /// Draining produces exactly as many elements as remain, however many
    /// further steps are made.
    pub proof fn lemma_yielded(self, steps: nat)
        requires
            self.wf(),
        ensures
            self.yielded(steps) == if steps <= self.len - self.taken {
                steps as int
            } else {
                self.len - self.taken
            },
        decreases steps,
    {
        if steps > 0 {
            self.advance().lemma_yielded((steps - 1) as nat);
        }
    }

    /// Draining a fresh sequence produces exactly `len` elements, and the
    /// `k`-th of them is the single element at offset `k`.
    pub proof fn lemma_drain_yields_len(
        glyph_index: u32,
        direction: HBDirection,
        len: u32,
        steps: nat,
        k: nat,
    )
        requires
            steps >= len,
            k < len,
        ensures
            Self::fresh(glyph_index, direction, len).yielded(steps) == len,
            Self::fresh(glyph_index, direction, len).after(k).pending() == Some(
                StretchQuery::fetch_of(glyph_index, direction, k as u32),
            ),
    {
        let s = Self::fresh(glyph_index, direction, len);
        s.lemma_yielded(steps);
        s.lemma_after(k);
    }

    /// A glyph without variants, for which the counting request answers 0,
    /// has an empty sequence: no step ever makes a request.
    pub proof fn lemma_no_variants(glyph_index: u32, direction: HBDirection, steps: nat)
        ensures
            Self::fresh(glyph_index, direction, 0).pending().is_none(),
            Self::fresh(glyph_index, direction, 0).yielded(steps) == 0,
    {
        Self::fresh(glyph_index, direction, 0).lemma_yielded(steps);
    }

    /// Exhaustion is terminal: once no request is pending, no later step makes
    /// one or changes the sequence.
    pub proof fn lemma_exhausted_is_terminal(self, steps: nat)
        requires
            self.wf(),
            self.pending().is_none(),
        ensures
            self.after(steps) == self,
            self.after(steps).pending().is_none(),
            self.yielded(steps) == 0,
    {
        self.lemma_after(steps);
        self.lemma_yielded(steps);
    }
}

/// The variants of one glyph along one axis, smallest first. The engine is
/// asked once for the count, before the sequence is made, and then once for
/// each element.
#[derive(Debug)]
pub struct HBGlyphVariantIter {
    size: u32,
    index: u32,
    glyph_index: u32,
    direction: HBDirection,
}

impl View for HBGlyphVariantIter {
    type V = VariantSequence;

    closed spec fn view(&self) -> VariantSequence {
        VariantSequence {
            glyph_index: self.glyph_index,
            direction: self.direction,
            len: self.size,
            taken: self.index,
        }
    }
}

impl HBGlyphVariantIter {
    #[verifier::type_invariant]
    spec fn index_within_size(self) -> bool {
        self.index <= self.size
    }

    /// The sequence of a glyph for which the counting request was answered
    /// with `num_variants`.
    pub fn new(glyph_index: u32, direction: HBDirection, num_variants: u32) -> (r: Self)
        ensures
            r@ == VariantSequence::fresh(glyph_index, direction, num_variants),
    {
        HBGlyphVariantIter { size: num_variants, index: 0, glyph_index, direction }
    }

    /// Number of variants of the glyph, whatever has been consumed.
    pub fn len(&self) -> (r: u32)
        ensures
            self@.wf(),
            r == self@.len,
    {
        proof {
            use_type_invariant(self);
        }
        self.size
    }

    /// One step: the request for the next variant, or `None` once every
    /// variant has been asked for.
    pub fn next_fetch(&mut self) -> (r: Option<StretchQuery>)
        ensures
            old(self)@.wf(),
            r == old(self)@.pending(),
            final(self)@ == old(self)@.advance(),
    {
        proof {
            use_type_invariant(&*self);
        }
        if self.index >= self.size {
            return None;
        }
        let query = StretchQuery::fetch(self.glyph_index, &self.direction, self.index);
        self.index = self.index + 1;
        Some(query)
    }
}

} // verus!
