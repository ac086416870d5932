//! The document assembler: a state machine over the page index, starting at
//! the bootstrap page and streaming upward until the first image that fails
//! to decode ends the document. The caller performs the two retrievals of
//! each index — image and annotations, concurrently with each other but never
//! across indices — and hands their outcomes in as events; every decision
//! about them is made and proved here.
//!
//! Policy: a fetch failure is always fatal. An image that does not decode is
//! fatal on the bootstrap page (a document must have at least one page) and
//! is the graceful end of the document on every later page. An annotation
//! payload that does not decode is fatal even when the page's image was good.
//! Pages are appended in strictly increasing fetch order and never reordered;
//! nothing is written out until the whole sequence is assembled.

use vstd::prelude::*;
use crate::annot::{annot_decode_of, decode_annotation_page};
use crate::compose::{composite_page, page_draws, GlyphDraw, OutputPage, OutputPageView};
use crate::errors::{AnnotError, FetchFailure, RunError};
use crate::glyphs::{AnnotationPage, GlyphRunView};
use crate::raster::{decode_image_meta, decoded_dims};

verus! {

/// The states of a run.
#[derive(Clone, Copy, Debug, PartialEq, Eq, Structural)]
pub enum Phase {
    /// Before the bootstrap page has been accepted.
    Bootstrapping,
    /// Accepting pages at successive indices.
    Streaming,
    /// The document ended gracefully; the pages are ready to serialize.
    Finished,
    /// A fatal error arose; no output may be written.
    Aborted,
}

/// What one accepted page was built from: the raw bytes of its image and the
/// glyph runs decoded from its annotations.
#[verifier::ext_equal]
pub struct PageSource {
    pub image: Seq<u8>,
    pub runs: Seq<GlyphRunView>,
}

/// The page a source composites to when it stands at the given fetch index.
pub open spec fn page_of_source(src: PageSource, idx: int) -> OutputPageView {
    OutputPageView {
        px_w: decoded_dims(src.image)->Some_0.width,
        px_h: decoded_dims(src.image)->Some_0.height,
        image: src.image,
        draws: page_draws(src.runs),
        fetch_index: idx,
    }
}

/// The document assembler. It owns the growing output exclusively until the
/// run finishes; `history` records, in order, what each accepted page was
/// built from.
pub struct Assembler {
    pub phase: Phase,
    pub pages: Vec<OutputPage>,
    pub history: Ghost<Seq<PageSource>>,
}

impl Assembler {
    /// The assembler's invariant: one page per accepted source, each page
    /// composited from its own source at its own position — so the output is
    /// ordered by fetch index by construction — and the bootstrap source
    /// carries no text layer.
    pub open spec fn wf(self) -> bool {
        &&& self.pages@.len() == self.history@.len()
        &&& (forall|i: int|
            0 <= i < self.history@.len() ==> decoded_dims(
                (#[trigger] self.history@[i]).image,
            ) is Some)
        &&& (forall|i: int|
            0 <= i < self.pages@.len() ==> (#[trigger] self.pages@[i])@ == page_of_source(
                self.history@[i],
                i,
            ))
        &&& (forall|i: int| 0 <= i < self.pages@.len() ==> (#[trigger] self.pages@[i]).wf())
        &&& (self.phase is Bootstrapping ==> self.pages@.len() == 0)
        &&& (self.phase is Streaming ==> self.pages@.len() >= 1)
        &&& (self.history@.len() > 0 ==> self.history@[0].runs == Seq::<GlyphRunView>::empty())
    }

    /// A fresh run: no pages, waiting for the bootstrap page.
    pub fn new() -> (a: Assembler)
        ensures
            a.wf(),
            a.phase is Bootstrapping,
            a.pages@.len() == 0,
    {
        let a = Assembler {
            phase: Phase::Bootstrapping,
            pages: Vec::new(),
            history: Ghost(Seq::empty()),
        };
        a
    }

    /// Accepts the outcome of fetching the bootstrap page's image. The
    /// bootstrap page is fetched unconditionally and carries no text layer.
    /// A fetch failure or an image that does not decode aborts the run with
    /// zero pages assembled.
    pub fn bootstrap_step(&mut self, image: Result<Vec<u8>, FetchFailure>) -> (r: Result<
        (),
        RunError,
    >)
        requires
            old(self).wf(),
            old(self).phase is Bootstrapping,
        ensures
            final(self).wf(),
            (r is Err <==> final(self).phase is Aborted),
            match image {
                Err(e) => {
                    &&& final(self).phase is Aborted
                    &&& final(self).pages@.len() == 0
                    &&& r == Err::<(), RunError>(RunError::Fetch(e))
                },
                Ok(bytes) => match decoded_dims(bytes@) {
                    None => {
                        &&& final(self).phase is Aborted
                        &&& final(self).pages@.len() == 0
                        &&& r == Err::<(), RunError>(RunError::BootstrapDecode)
                    },
                    Some(meta) => {
                        &&& final(self).phase is Streaming
                        &&& final(self).pages@.len() == 1
                        &&& final(self).pages@[0]@.px_w == meta.width
                        &&& final(self).pages@[0]@.px_h == meta.height
                        &&& final(self).pages@[0]@.image == bytes@
                        &&& final(self).pages@[0]@.draws == Seq::<GlyphDraw>::empty()
                        &&& final(self).pages@[0]@.fetch_index == 0
                        &&& r is Ok
                    },
                },
            },
    {
        match image {
            Err(e) => {
                self.phase = Phase::Aborted;
                Err(RunError::Fetch(e))
            },
            Ok(bytes) => {
                let ghost bts = bytes@;
                match decode_image_meta(bytes.as_slice()) {
                    None => {
                        self.phase = Phase::Aborted;
                        Err(RunError::BootstrapDecode)
                    },
                    Some(meta) => {
                        let empty = AnnotationPage::empty();
                        let mut page = composite_page(meta, bytes, &empty);
                        page.fetch_index = Ghost(0);
                        let ghost src = PageSource { image: bts, runs: Seq::empty() };
                        proof {
                            assert(page_draws(src.runs) =~= Seq::<GlyphDraw>::empty());
                            assert(page@ =~= page_of_source(src, 0));
                        }
                        self.pages.push(page);
                        self.history = Ghost(self.history@.push(src));
                        self.phase = Phase::Streaming;
                        Ok(())
                    },
                }
            },
        }
    }

    /// Accepts the joined outcomes of one streaming index: the image fetch
    /// and the annotation fetch, which ran concurrently with each other. The
    /// result says how the run goes on: `Ok(true)` to fetch the next index,
    /// `Ok(false)` when the document ended gracefully, `Err` when the run
    /// aborted.
    pub fn stream_step(
        &mut self,
        image: Result<Vec<u8>, FetchFailure>,
        annots: Result<String, FetchFailure>,
    ) -> (r: Result<bool, RunError>)
        requires
            old(self).wf(),
            old(self).phase is Streaming,
        ensures
            final(self).wf(),
            (r is Err <==> final(self).phase is Aborted),
            (r == Ok::<bool, RunError>(false) <==> final(self).phase is Finished),
            (r == Ok::<bool, RunError>(true) <==> final(self).phase is Streaming),
            final(self).pages@.len() >= old(self).pages@.len(),
            final(self).pages@.subrange(0, old(self).pages@.len() as int) == old(self).pages@,
            match image {
                Err(e) => {
                    &&& r == Err::<bool, RunError>(RunError::Fetch(e))
                    &&& final(self).pages@ == old(self).pages@
                },
                Ok(bytes) => match decoded_dims(bytes@) {
                    None => {
                        &&& r == Ok::<bool, RunError>(false)
                        &&& final(self).pages@ == old(self).pages@
                    },
                    Some(meta) => match annots {
                        Err(e) => {
                            &&& r == Err::<bool, RunError>(RunError::Fetch(e))
                            &&& final(self).pages@ == old(self).pages@
                        },
                        Ok(text) => {
                            &&& (annot_decode_of(text@) matches Err(ae) ==> r == Err::<
                                bool,
                                RunError,
                            >(RunError::Annotation(ae)) && final(self).pages@ == old(self).pages@)
                            &&& (annot_decode_of(text@) matches Ok(decoded) ==> {
                                &&& r == Ok::<bool, RunError>(true)
                                &&& final(self).pages@.len() == old(self).pages@.len() + 1
                                &&& final(self).pages@.last()@.px_w == meta.width
                                &&& final(self).pages@.last()@.px_h == meta.height
                                &&& final(self).pages@.last()@.image == bytes@
                                &&& final(self).pages@.last()@.draws == page_draws(decoded)
                                &&& final(self).pages@.last()@.fetch_index == old(self).pages@.len()
                            })
                        },
                    },
                },
            },
    {
        match image {
            Err(e) => {
                self.phase = Phase::Aborted;
                Err(RunError::Fetch(e))
            },
            Ok(bytes) => {
                let ghost bts = bytes@;
                match decode_image_meta(bytes.as_slice()) {
                    None => {
                        self.phase = Phase::Finished;
                        Ok(false)
                    },
                    Some(meta) => {
                        match annots {
                            Err(e) => {
                                self.phase = Phase::Aborted;
                                Err(RunError::Fetch(e))
                            },
                            Ok(text) => {
                                match decode_annotation_page(text.as_str()) {
                                    Err(ae) => {
                                        self.phase = Phase::Aborted;
                                        Err(RunError::Annotation(ae))
                                    },
                                    Ok(runs) => {
                                        let ghost rs = runs@;
                                        let idx = self.pages.len();
                                        let mut page = composite_page(meta, bytes, &runs);
                                        page.fetch_index = Ghost(idx as int);
                                        let ghost src = PageSource { image: bts, runs: rs };
                                        proof {
                                            assert(page@ =~= page_of_source(src, idx as int));
                                        }
                                        self.pages.push(page);
                                        self.history = Ghost(self.history@.push(src));
                                        proof {
                                            assert(final(self).pages@.subrange(
                                                0,
                                                old(self).pages@.len() as int,
                                            ) =~= old(self).pages@);
                                        }
                                        Ok(true)
                                    },
                                }
                            },
                        }
                    },
                }
            },
        }
    }

    /// How many pages have been composited so far; during streaming this is
    /// also the next fetch index.
    pub fn page_count(&self) -> (n: usize)
        ensures
            n == self.pages@.len(),
    {
        self.pages.len()
    }

    /// Hands the assembled document over for serialization. Only a finished
    /// run may be serialized: an aborted one writes nothing.
    pub fn into_pages(self) -> (v: Vec<OutputPage>)
        requires
            self.phase is Finished,
        ensures
            v@ == self.pages@,
    {
        self.pages
    }
}

/// Law: every page keeps its own source image's pixel dimensions, so its
/// physical size is its own image's pixel size over `PX_PER_MM` — pages may
/// differ in size from one another.
pub proof fn lemma_page_dimensions(a: Assembler, i: int)
    requires
        a.wf(),
        0 <= i < a.pages@.len(),
    ensures
        decoded_dims(a.history@[i].image) is Some,
        a.pages@[i]@.px_w == decoded_dims(a.history@[i].image)->Some_0.width,
        a.pages@[i]@.px_h == decoded_dims(a.history@[i].image)->Some_0.height,
        a.pages@[i]@.image == a.history@[i].image,
{
}

/// Law: pages stand in strictly increasing fetch order: the page at position
/// i of the output came from fetch index i, whatever order the underlying
/// retrievals completed in.
pub proof fn lemma_pages_in_fetch_order(a: Assembler, i: int)
    requires
        a.wf(),
        0 <= i < a.pages@.len(),
    ensures
        a.pages@[i]@.fetch_index == i,
{
}

/// Law: the text layer of the page at position i is exactly the draws of its
/// own decoded glyph runs, and the bootstrap page carries none.
pub proof fn lemma_page_text_layer(a: Assembler, i: int)
    requires
        a.wf(),
        0 <= i < a.pages@.len(),
    ensures
        a.pages@[i]@.draws == page_draws(a.history@[i].runs),
        i == 0 ==> a.pages@[i]@.draws == Seq::<GlyphDraw>::empty(),
{
    if i == 0 {
        assert(page_draws(a.history@[0].runs) =~= Seq::<GlyphDraw>::empty());
    }
}

} // verus!
