//! Glyph assemblies: the parts from which a glyph of any length is built, and
//! the collection of those parts from the engine, one request per part.

use crate::harfbuzz::direction::HBDirection;
use crate::harfbuzz::stretch::StretchQuery;
use vstd::prelude::*;

verus! {

/// One part of an assembly. Lengths are in design units along the stretch axis.
#[derive(Debug, Clone, Copy, PartialEq, Eq, Structural)]
pub struct HBGlyphPart {
    pub glyph: u32,
    pub start_connector_length: i32,
    pub end_connector_length: i32,
    pub full_advance: i32,
    pub flags: u32,
}

impl HBGlyphPart {
    /// Whether the part's flags mark it as the part that may be repeated.
    pub open spec fn extender(self) -> bool {
        self.flags == 1
    }

    pub fn new(
        glyph: u32,
        start_connector_length: i32,
        end_connector_length: i32,
        full_advance: i32,
        flags: u32,
    ) -> (r: Self)
        ensures
            r == (HBGlyphPart {
                glyph,
                start_connector_length,
                end_connector_length,
                full_advance,
                flags,
            }),
    {
        HBGlyphPart { glyph, start_connector_length, end_connector_length, full_advance, flags }
    }

    pub fn glyph_index(&self) -> (r: u32)
        ensures
            r == self.glyph,
    {
        self.glyph
    }

    pub fn start_connector_length(&self) -> (r: i32)
        ensures
            r == self.start_connector_length,
    {
        self.start_connector_length
    }

    pub fn end_connector_length(&self) -> (r: i32)
        ensures
            r == self.end_connector_length,
    {
        self.end_connector_length
    }

    pub fn full_advance(&self) -> (r: i32)
        ensures
            r == self.full_advance,
    {
        self.full_advance
    }

    pub fn is_extender(&self) -> (r: bool)
        ensures
            r == self.extender(),
    {
        self.flags == hb_part_flag_extender()
    }
}

/// `harfbuzz_sys::HB_OT_MATH_GLYPH_PART_FLAG_EXTENDER`: the flags of a part that
/// may be repeated, 1.
#[verifier::external_body]
fn hb_part_flag_extender() -> (r: u32)
    ensures
        r == 1,
{
    harfbuzz_sys::HB_OT_MATH_GLYPH_PART_FLAG_EXTENDER
}

/// The parts of a stretched glyph, from start to end along the stretch axis,
/// with the italics correction that the whole assembly shares.
#[derive(Debug)]
pub struct HBGlyphAssembly {
    pub parts: Vec<HBGlyphPart>,
    pub italics_correction: i32,
}

impl HBGlyphAssembly {
    pub fn len(&self) -> (r: usize)
        ensures
            r == self.parts@.len(),
    {
        self.parts.len()
    }

    pub fn italics_correction(&self) -> (r: i32)
        ensures
            r == self.italics_correction,
    {
        self.italics_correction
    }

    pub fn parts(&self) -> (r: &Vec<HBGlyphPart>)
        ensures
            r@ == self.parts@,
    {
        &self.parts
    }
}

/// What the engine hands back for the request of one part: the part, and the
/// italics correction that every answer carries.
pub ghost struct PartReply {
    pub part: HBGlyphPart,
    pub italics_correction: i32,
}

/// What can be observed of a collection in progress: how many parts the glyph
/// has, those read so far, and the italics correction of the latest answer.
pub ghost struct AssemblyState {
    pub glyph_index: u32,
    pub direction: HBDirection,
    pub count: u32,
    pub parts: Seq<HBGlyphPart>,
    pub italics_correction: i32,
}

impl AssemblyState {
    pub open spec fn wf(self) -> bool {
        self.parts.len() <= self.count
    }

    /// The collection right after the counting request was answered with
    /// `count` parts and `italics_correction`.
    pub open spec fn start(
        glyph_index: u32,
        direction: HBDirection,
        count: u32,
        italics_correction: i32,
    ) -> AssemblyState {
        AssemblyState { glyph_index, direction, count, parts: Seq::empty(), italics_correction }
    }

    pub open spec fn is_complete(self) -> bool {
        self.parts.len() >= self.count
    }

    /// The request for the next part, if one is missing.
    pub open spec fn pending(self) -> Option<StretchQuery> {
        if self.is_complete() {
            None
        } else {
            Some(
                StretchQuery::fetch_of(self.glyph_index, self.direction, self.parts.len() as u32),
            )
        }
    }

    /// The collection after an answer: the part is appended and the italics
    /// correction replaced. An answer that arrives when nothing is missing is
    /// dropped.
    pub open spec fn record(self, part: HBGlyphPart, italics_correction: i32) -> AssemblyState {
        if self.is_complete() {
            self
        } else {
            AssemblyState { parts: self.parts.push(part), italics_correction, ..self }
        }
    }

    /// The collection after the answers `replies`, in their order.
    pub open spec fn run(self, replies: Seq<PartReply>) -> AssemblyState
        decreases replies.len(),
    {
        if replies.len() == 0 {
            self
        } else {
            self.run(replies.drop_last()).record(
                replies.last().part,
                replies.last().italics_correction,
            )
        }
    }

    /// A glyph without stretch data, for which the counting request answers
    /// with no parts and italics correction 0, has a complete and empty
    /// assembly at once: no part is asked for.
    pub proof fn lemma_no_stretch_data(glyph_index: u32, direction: HBDirection)
        ensures
            Self::start(glyph_index, direction, 0, 0).is_complete(),
            Self::start(glyph_index, direction, 0, 0).pending().is_none(),
            Self::start(glyph_index, direction, 0, 0).parts.len() == 0,
            Self::start(glyph_index, direction, 0, 0).italics_correction == 0,
    {
    }

    /// As long as no more answers arrive than parts are missing, the collection
    /// holds the parts of the answers in their order, and the italics correction
    /// of the latest one.
    pub proof fn lemma_run(self, replies: Seq<PartReply>)
        requires
            self.wf(),
            self.parts.len() + replies.len() <= self.count,
        ensures
            self.run(replies).wf(),
            self.run(replies).glyph_index == self.glyph_index,
            self.run(replies).direction == self.direction,
            self.run(replies).count == self.count,
            self.run(replies).parts == self.parts + replies.map_values(|r: PartReply| r.part),
            self.run(replies).italics_correction == if replies.len() == 0 {
                self.italics_correction
            } else {
                replies.last().italics_correction
            },
        decreases replies.len(),
    {
        let parts_of = |r: PartReply| r.part;
        if replies.len() == 0 {
            assert(self.parts + replies.map_values(parts_of) =~= self.parts);
        } else {
            let before = replies.drop_last();
            self.lemma_run(before);
            assert(self.parts + replies.map_values(parts_of) =~= (self.parts + before.map_values(
                parts_of,
            )).push(replies.last().part));
        }
    }

    /// A whole collection: after the counting request, one request per part, in
    /// order, makes the assembly complete with exactly the parts that the
    /// answers held; its length is the count that the counting request gave.
    pub proof fn lemma_collects_every_part(
        glyph_index: u32,
        direction: HBDirection,
        count: u32,
        italics_correction: i32,
        replies: Seq<PartReply>,
        k: nat,
    )
        requires
            replies.len() == count,
            k < count,
        ensures
            Self::start(glyph_index, direction, count, italics_correction).run(
                replies.take(k as int),
            ).pending() == Some(StretchQuery::fetch_of(glyph_index, direction, k as u32)),
            Self::start(glyph_index, direction, count, italics_correction).run(
                replies,
            ).is_complete(),
            Self::start(glyph_index, direction, count, italics_correction).run(replies).parts
                == replies.map_values(|r: PartReply| r.part),
            Self::start(glyph_index, direction, count, italics_correction).run(replies).parts.len()
                == count,
            Self::start(glyph_index, direction, count, italics_correction).run(
                replies,
            ).italics_correction == replies.last().italics_correction,
    {
        let s = Self::start(glyph_index, direction, count, italics_correction);
        s.lemma_run(replies.take(k as int));
        s.lemma_run(replies);
        assert(s.parts + replies.map_values(|r: PartReply| r.part) =~= replies.map_values(
            |r: PartReply| r.part,
        ));
    }

    /// Completion is terminal: further answers change nothing.
    pub proof fn lemma_complete_is_terminal(self, replies: Seq<PartReply>)
        requires
            self.is_complete(),
        ensures
            self.run(replies) == self,
        decreases replies.len(),
    {
        if replies.len() > 0 {
            self.lemma_complete_is_terminal(replies.drop_last());
        }
    }
}

/// Collects the assembly of one glyph along one axis. The engine is asked once
/// for the count, before the collection is made, and then once for each part.
#[derive(Debug)]
pub struct HBGlyphAssemblyBuilder {
    glyph_index: u32,
    direction: HBDirection,
    count: u32,
    parts: Vec<HBGlyphPart>,
    italics_correction: i32,
}

impl View for HBGlyphAssemblyBuilder {
    type V = AssemblyState;

    closed spec fn view(&self) -> AssemblyState {
        AssemblyState {
            glyph_index: self.glyph_index,
            direction: self.direction,
            count: self.count,
            parts: self.parts@,
            italics_correction: self.italics_correction,
        }
    }
}

impl HBGlyphAssemblyBuilder {
    #[verifier::type_invariant]
    spec fn parts_within_count(self) -> bool {
        self.parts@.len() <= self.count
    }

    /// The collection for a glyph whose counting request was answered with
    /// `count` parts and `italics_correction`.
    pub fn new(glyph_index: u32, direction: HBDirection, count: u32, italics_correction: i32) -> (r:
        Self)
        ensures
            r@ == AssemblyState::start(glyph_index, direction, count, italics_correction),
    {
        HBGlyphAssemblyBuilder {
            glyph_index,
            direction,
            count,
            parts: Vec::new(),
            italics_correction,
        }
    }

    pub fn is_complete(&self) -> (r: bool)
        ensures
            self@.wf(),
            r == self@.is_complete(),
    {
        proof {
            use_type_invariant(self);
        }
        self.parts.len() >= self.count as usize
    }

    /// The request for the next part, or `None` when every part has been read.
    pub fn next_fetch(&self) -> (r: Option<StretchQuery>)
        ensures
            r == self@.pending(),
    {
        proof {
            use_type_invariant(self);
        }
        let read: usize = self.parts.len();
        if read >= self.count as usize {
            None
        } else {
            Some(StretchQuery::fetch(self.glyph_index, &self.direction, read as u32))
        }
    }

    /// Takes in the engine's answer to the pending request.
    pub fn record(self, part: HBGlyphPart, italics_correction: i32) -> (r: Self)
        ensures
            r@ == self@.record(part, italics_correction),
    {
        proof {
            use_type_invariant(&self);
        }
        if self.parts.len() < self.count as usize {
            let mut parts = self.parts;
            parts.push(part);
            HBGlyphAssemblyBuilder {
                glyph_index: self.glyph_index,
                direction: self.direction,
                count: self.count,
                parts,
                italics_correction,
            }
        } else {
            self
        }
    }

    /// The assembly as far as it has been read.
    pub fn finish(self) -> (r: HBGlyphAssembly)
        ensures
            r.parts@ == self@.parts,
            r.italics_correction == self@.italics_correction,
            self@.is_complete() ==> r.parts@.len() == self@.count,
    {
        proof {
            use_type_invariant(&self);
        }
        HBGlyphAssembly { parts: self.parts, italics_correction: self.italics_correction }
    }
}

} // verus!
