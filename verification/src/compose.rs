//! The page compositor: turns one decoded image and one page of glyph runs
//! into a finished output page. The page's physical size is its pixel size at
//! `PX_PER_MM` pixels per millimetre; each glyph is drawn invisibly at the
//! run's baseline transform with the translation overwritten by the glyph's
//! own placement, and records whose code point is no Unicode scalar value are
//! skipped rather than fatal.

use vstd::prelude::*;
use crate::glyphs::{PlacementMatrix, GlyphRecord, GlyphRun, GlyphRunView, AnnotationPage};
use crate::raster::ImageMeta;

verus! {

/// Pixels per physical millimetre of an output page. Together with
/// `RENDER_DPI` this is one configuration value: the remote service renders
/// at a fixed 300 dots per inch, and twelve pixels per millimetre is that
/// resolution expressed against the output's millimetre unit.
pub const PX_PER_MM: u32 = 12;

/// The rendering-intent tag the output format requires on each embedded
/// image. The physical page size already encodes the density; this constant
/// must agree with `PX_PER_MM`.
pub const RENDER_DPI: u32 = 300;

/// Whether a code point names a Unicode scalar value: below the surrogate
/// range, or past it and at most the greatest code point.
pub open spec fn valid_code_point(c: u32) -> bool {
    c < 0xD800 || (0xE000 <= c && c <= 0x10FFFF)
}

/// Run-time check of `valid_code_point`.
pub fn is_valid_code_point(c: u32) -> (ok: bool)
    ensures
        ok == valid_code_point(c),
{
    c < 0xD800 || (0xE000 <= c && c <= 0x10FFFF)
}

/// The run's baseline transform with its translation overwritten by the
/// glyph's own placement.
pub open spec fn override_translation(m: PlacementMatrix, g: GlyphRecord) -> PlacementMatrix {
    PlacementMatrix { tx: g.x, ty: g.y, ..m }
}

/// One glyph drawn invisibly on a page: the transform it stands at and its
/// code point, known to be a Unicode scalar value.
#[derive(Clone, Copy, Debug, PartialEq, Eq, Structural)]
pub struct GlyphDraw {
    pub matrix: PlacementMatrix,
    pub code: u32,
}

/// The draws produced by one run: its glyph records in order, each placed at
/// the base matrix with overridden translation; records with an invalid code
/// point contribute nothing.
pub open spec fn run_draws(m: PlacementMatrix, gs: Seq<GlyphRecord>) -> Seq<GlyphDraw>
    decreases gs.len(),
{
    if gs.len() == 0 {
        Seq::empty()
    } else {
        run_draws(m, gs.drop_last()) + if valid_code_point(gs.last().code) {
            seq![GlyphDraw { matrix: override_translation(m, gs.last()), code: gs.last().code }]
        } else {
            Seq::empty()
        }
    }
}

/// The draws of a whole page: each run's draws, in run order.
pub open spec fn page_draws(runs: Seq<GlyphRunView>) -> Seq<GlyphDraw>
    decreases runs.len(),
{
    if runs.len() == 0 {
        Seq::empty()
    } else {
        page_draws(runs.drop_last()) + run_draws(runs.last().matrix, runs.last().glyphs)
    }
}

/// Every draw a run produces carries a valid code point.
pub proof fn lemma_run_draws_valid(m: PlacementMatrix, gs: Seq<GlyphRecord>)
    ensures
        forall|k: int|
            0 <= k < run_draws(m, gs).len() ==> valid_code_point(
                #[trigger] run_draws(m, gs)[k].code,
            ),
    decreases gs.len(),
{
    if gs.len() > 0 {
        lemma_run_draws_valid(m, gs.drop_last());
        let pre = run_draws(m, gs.drop_last());
        assert forall|k: int| 0 <= k < run_draws(m, gs).len() implies valid_code_point(
            run_draws(m, gs)[k].code,
        ) by {
            if k < pre.len() {
                assert(run_draws(m, gs)[k] == pre[k]);
            } else {
                assert(run_draws(m, gs)[k].code == gs.last().code);
            }
        }
    }
}

/// Every draw a page produces carries a valid code point.
pub proof fn lemma_page_draws_valid(runs: Seq<GlyphRunView>)
    ensures
        forall|k: int|
            0 <= k < page_draws(runs).len() ==> valid_code_point(
                #[trigger] page_draws(runs)[k].code,
            ),
    decreases runs.len(),
{
    if runs.len() > 0 {
        lemma_page_draws_valid(runs.drop_last());
        lemma_run_draws_valid(runs.last().matrix, runs.last().glyphs);
        let pre = page_draws(runs.drop_last());
        let tail = run_draws(runs.last().matrix, runs.last().glyphs);
        assert forall|k: int| 0 <= k < page_draws(runs).len() implies valid_code_point(
            page_draws(runs)[k].code,
        ) by {
            if k < pre.len() {
                assert(page_draws(runs)[k] == pre[k]);
            } else {
                assert(page_draws(runs)[k] == tail[k - pre.len()]);
            }
        }
    }
}

/// Every glyph record of a run whose code point is a Unicode scalar value
/// appears among the run's draws, placed at the base matrix with the
/// record's own translation.
pub proof fn lemma_glyph_in_run_draws(m: PlacementMatrix, gs: Seq<GlyphRecord>, j: int)
    requires
        0 <= j < gs.len(),
        valid_code_point(gs[j].code),
    ensures
        (exists|k: int|
            0 <= k < run_draws(m, gs).len() && #[trigger] run_draws(m, gs)[k] == (GlyphDraw {
                matrix: override_translation(m, gs[j]),
                code: gs[j].code,
            })),
    decreases gs.len(),
{
    if j == gs.len() - 1 {
        let k = run_draws(m, gs).len() - 1;
        assert(run_draws(m, gs)[k] == GlyphDraw {
            matrix: override_translation(m, gs.last()),
            code: gs.last().code,
        });
    } else {
        lemma_glyph_in_run_draws(m, gs.drop_last(), j);
        let k = choose|k: int|
            0 <= k < run_draws(m, gs.drop_last()).len() && #[trigger] run_draws(
                m,
                gs.drop_last(),
            )[k] == GlyphDraw { matrix: override_translation(m, gs.drop_last()[j]), code: gs.drop_last()[j].code };
        assert(run_draws(m, gs)[k] == GlyphDraw {
            matrix: override_translation(m, gs[j]),
            code: gs[j].code,
        });
    }
}

/// Every glyph record of a composited page whose code point is a Unicode
/// scalar value appears in the page's text layer, at a position derived from
/// its run's base matrix with the record's own (x, y) translation.
pub proof fn lemma_glyph_in_text_layer(runs: Seq<GlyphRunView>, i: int, j: int)
    requires
        0 <= i < runs.len(),
        0 <= j < runs[i].glyphs.len(),
        valid_code_point(runs[i].glyphs[j].code),
    ensures
        (exists|k: int|
            0 <= k < page_draws(runs).len() && #[trigger] page_draws(runs)[k] == (GlyphDraw {
                matrix: override_translation(runs[i].matrix, runs[i].glyphs[j]),
                code: runs[i].glyphs[j].code,
            })),
    decreases runs.len(),
{
    if i == runs.len() - 1 {
        lemma_glyph_in_run_draws(runs[i].matrix, runs[i].glyphs, j);
        let base = page_draws(runs.drop_last()).len();
        let k = choose|k: int|
            0 <= k < run_draws(runs[i].matrix, runs[i].glyphs).len() && #[trigger] run_draws(
                runs[i].matrix,
                runs[i].glyphs,
            )[k] == GlyphDraw {
                matrix: override_translation(runs[i].matrix, runs[i].glyphs[j]),
                code: runs[i].glyphs[j].code,
            };
        assert(page_draws(runs)[base + k] == GlyphDraw {
            matrix: override_translation(runs[i].matrix, runs[i].glyphs[j]),
            code: runs[i].glyphs[j].code,
        });
    } else {
        lemma_glyph_in_text_layer(runs.drop_last(), i, j);
        let k = choose|k: int|
            0 <= k < page_draws(runs.drop_last()).len() && #[trigger] page_draws(
                runs.drop_last(),
            )[k] == GlyphDraw {
                matrix: override_translation(runs.drop_last()[i].matrix, runs.drop_last()[i].glyphs[j]),
                code: runs.drop_last()[i].glyphs[j].code,
            };
        assert(page_draws(runs)[k] == GlyphDraw {
            matrix: override_translation(runs[i].matrix, runs[i].glyphs[j]),
            code: runs[i].glyphs[j].code,
        });
    }
}

/// One finished output page: its pixel dimensions (the physical size is the
/// pixel size at `PX_PER_MM` pixels per millimetre), the raw bytes of its
/// background image, its invisible glyph draws, and the fetch index it came
/// from. Immutable once composited.
pub struct OutputPage {
    pub px_w: u32,
    pub px_h: u32,
    pub image: Vec<u8>,
    pub draws: Vec<GlyphDraw>,
    pub fetch_index: Ghost<int>,
}

/// Mathematical image of an `OutputPage`.
pub struct OutputPageView {
    pub px_w: u32,
    pub px_h: u32,
    pub image: Seq<u8>,
    pub draws: Seq<GlyphDraw>,
    pub fetch_index: int,
}

impl View for OutputPage {
    type V = OutputPageView;

    open spec fn view(&self) -> OutputPageView {
        OutputPageView {
            px_w: self.px_w,
            px_h: self.px_h,
            image: self.image@,
            draws: self.draws@,
            fetch_index: self.fetch_index@,
        }
    }
}

impl OutputPage {
    /// Positive pixel dimensions, and every draw a Unicode scalar value.
    pub open spec fn wf(self) -> bool {
        &&& self.px_w > 0
        &&& self.px_h > 0
        &&& forall|k: int|
            0 <= k < self.draws@.len() ==> valid_code_point(#[trigger] self.draws@[k].code)
    }
}

/// Appends the draws of one run: its glyphs in order, invalid code points
/// skipped, each valid one at the base matrix with overridden translation.
fn append_run_draws(draws: &mut Vec<GlyphDraw>, run: &GlyphRun)
    ensures
        final(draws)@ == old(draws)@ + run_draws(run.matrix, run.glyphs@),
{
    let m = run.matrix;
    let ghost gs = run.glyphs@;
    let mut j: usize = 0;
    proof {
        assert(gs.take(0) =~= Seq::<GlyphRecord>::empty());
        assert(draws@ =~= draws@ + run_draws(m, gs.take(0)));
    }
    while j < run.glyphs.len()
        invariant
            0 <= j <= gs.len(),
            gs == run.glyphs@,
            m == run.matrix,
            draws@ == old(draws)@ + run_draws(m, gs.take(j as int)),
        decreases gs.len() - j,
    {
        let g = run.glyphs[j];
        proof {
            assert(gs.take(j + 1).drop_last() =~= gs.take(j as int));
            assert(gs.take(j + 1).last() == gs[j as int]);
        }
        if is_valid_code_point(g.code) {
            let mut nm = m;
            nm.tx = g.x;
            nm.ty = g.y;
            draws.push(GlyphDraw { matrix: nm, code: g.code });
            proof {
                assert(nm == override_translation(m, g));
                assert(draws@ =~= old(draws)@ + run_draws(m, gs.take(j + 1)));
            }
        } else {
            proof {
                assert(draws@ =~= old(draws)@ + run_draws(m, gs.take(j + 1)));
            }
        }
        j = j + 1;
    }
    proof {
        assert(gs.take(gs.len() as int) =~= gs);
    }
}

/// Composites one page: keeps the image's own pixel dimensions as the page
/// size, stores the image bytes as the background, and lays the page's glyph
/// runs down as invisible draws.
pub fn composite_page(meta: ImageMeta, image: Vec<u8>, annots: &AnnotationPage) -> (page:
    OutputPage)
    requires
        meta.wf(),
    ensures
        page.px_w == meta.width,
        page.px_h == meta.height,
        page.image@ == image@,
        page.draws@ == page_draws(annots@),
        page.wf(),
{
    let mut draws: Vec<GlyphDraw> = Vec::new();
    let ghost rs = annots@;
    let mut i: usize = 0;
    proof {
        assert(rs.take(0) =~= Seq::<GlyphRunView>::empty());
    }
    while i < annots.runs.len()
        invariant
            0 <= i <= rs.len(),
            rs == annots@,
            rs.len() == annots.runs@.len(),
            draws@ == page_draws(rs.take(i as int)),
        decreases rs.len() - i,
    {
        proof {
            assert(rs.take(i + 1).drop_last() =~= rs.take(i as int));
            assert(rs.take(i + 1).last() == rs[i as int]);
            assert(rs[i as int] == annots.runs@[i as int]@);
        }
        append_run_draws(&mut draws, &annots.runs[i]);
        i = i + 1;
    }
    proof {
        assert(rs.take(rs.len() as int) =~= rs);
        lemma_page_draws_valid(rs);
    }
    OutputPage {
        px_w: meta.width,
        px_h: meta.height,
        image,
        draws,
        fetch_index: Ghost(0),
    }
}

} // verus!
