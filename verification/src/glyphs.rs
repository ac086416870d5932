//! The data model of a page's recovered text: glyph placement records grouped
//! into runs, each run carrying the baseline transform of one line or span.
//!
//! Coordinates and matrix entries travel through this crate as IEEE-754
//! double-precision bit patterns held in `u64` fields. The assembly logic
//! only moves them between places and never computes with them; the renderer
//! turns them back into numbers at the output boundary.

use vstd::prelude::*;

verus! {

/// A 2D affine transform establishing the baseline coordinate frame of one
/// run of glyphs: scale-x, shear-y, shear-x, scale-y, translate-x,
/// translate-y, in that order, each an IEEE-754 bit pattern.
#[derive(Clone, Copy, Debug, PartialEq, Eq, Structural)]
pub struct PlacementMatrix {
    pub sx: u64,
    pub shy: u64,
    pub shx: u64,
    pub sy: u64,
    pub tx: u64,
    pub ty: u64,
}

/// One glyph of a run: its own (x, y) placement, two carried-along values the
/// assembly does not read, and a candidate Unicode code point.
#[derive(Clone, Copy, Debug, PartialEq, Eq, Structural)]
pub struct GlyphRecord {
    pub x: u64,
    pub y: u64,
    pub ext_a: u64,
    pub ext_b: u64,
    pub code: u32,
}

/// A baseline transform plus the ordered glyph records placed against it.
#[derive(Debug)]
pub struct GlyphRun {
    pub matrix: PlacementMatrix,
    pub glyphs: Vec<GlyphRecord>,
}

/// Mathematical image of a `GlyphRun`.
#[verifier::ext_equal]
pub struct GlyphRunView {
    pub matrix: PlacementMatrix,
    pub glyphs: Seq<GlyphRecord>,
}

impl View for GlyphRun {
    type V = GlyphRunView;

    open spec fn view(&self) -> GlyphRunView {
        GlyphRunView { matrix: self.matrix, glyphs: self.glyphs@ }
    }
}

/// The recovered text of one page: its glyph runs in order. Consumed once by
/// the compositor and not retained.
#[derive(Debug)]
pub struct AnnotationPage {
    pub runs: Vec<GlyphRun>,
}

impl View for AnnotationPage {
    type V = Seq<GlyphRunView>;

    open spec fn view(&self) -> Seq<GlyphRunView> {
        self.runs@.map_values(|r: GlyphRun| r@)
    }
}

impl AnnotationPage {
    /// A page with no text layer, as attached to the bootstrap page.
    pub fn empty() -> (p: AnnotationPage)
        ensures
            p@ == Seq::<GlyphRunView>::empty(),
    {
        let p = AnnotationPage { runs: Vec::new() };
        proof {
            assert(p@ =~= Seq::<GlyphRunView>::empty());
        }
        p
    }
}

} // verus!
