//! From a grid of counts to the picture, and the renderer that remembers a
//! grid between renders.

use crate::attractor::Attractor;
use crate::catalog::Variant;
use crate::histogram::lemma_peak_bounds;
use crate::histogram::peak;
use crate::histogram::Histogram;
use crate::picture::assemble;
use crate::picture::image_samples;
use crate::picture::image_size;
use crate::picture::packed;
use crate::raster::gen_hist;
use crate::raster::makes_grid;
use image::DynamicImage;
use vstd::prelude::*;

verus! {

/// The peak that a colour scheme is given: the largest count, or one where
/// the grid is blank, so that the density of every cell is a proper fraction.
pub open spec fn density_peak(max_count: nat) -> nat {
    if max_count == 0 {
        1
    } else {
        max_count
    }
}

/// Whether a colour scheme accepts every density of a render of `n` steps on
/// `width` by `height` pixels: every count up to a peak that is not zero.
pub open spec fn tone_ready<F: Fn(u64, u64, usize, usize, usize) -> (u8, u8, u8)>(
    tone: F,
    n: usize,
    width: usize,
    height: usize,
) -> bool {
    forall|count: u64, peak: u64|
        count <= peak && peak > 0 ==> #[trigger] call_requires(
            tone,
            (count, peak, n, width, height),
        )
}

/// Whether `colors` holds, cell by cell, a colour that the scheme `tone`
/// gives for the count of the cell, the peak of the grid and the settings of
/// the render.
pub open spec fn toned<F: Fn(u64, u64, usize, usize, usize) -> (u8, u8, u8)>(
    tone: F,
    counts: Seq<nat>,
    n: usize,
    width: usize,
    height: usize,
    colors: Seq<(u8, u8, u8)>,
) -> bool {
    &&& colors.len() == counts.len()
    &&& forall|k: int|
        0 <= k < counts.len() ==> call_ensures(
            tone,
            (counts[k] as u64, density_peak(peak(counts)) as u64, n, width, height),
            #[trigger] colors[k],
        )
}

/// The colour of every cell of `hist`, in the order of the cells, for a
/// render of `n` steps. The scheme is asked once for each cell, with the
/// count of the cell and the largest count of the grid; for a blank grid
/// that peak is taken as one, so that every density is zero.
pub fn shade<F: Fn(u64, u64, usize, usize, usize) -> (u8, u8, u8)>(
    hist: &Histogram,
    tone: &F,
    n: usize,
) -> (colors: Vec<(u8, u8, u8)>)
    requires
        hist.wf(),
        tone_ready(*tone, n, hist.spec_width() as usize, hist.spec_height() as usize),
    ensures
        toned(
            *tone,
            hist@,
            n,
            hist.spec_width() as usize,
            hist.spec_height() as usize,
            colors@,
        ),
{
    let width = hist.width();
    let height = hist.height();
    let max_count = hist.max_count();
    let top = if max_count == 0 {
        1
    } else {
        max_count
    };
    proof {
        hist.lemma_wf();
        lemma_peak_bounds(hist@);
    }
    let cells = width * height;
    let mut colors: Vec<(u8, u8, u8)> = Vec::new();
    let mut k: usize = 0;
    while k < cells
        invariant
            k <= cells,
            cells == hist@.len(),
            colors@.len() == k,
            top == density_peak(peak(hist@)),
            peak(hist@) <= u64::MAX,
            tone_ready(*tone, n, width, height),
            forall|i: int| 0 <= i < hist@.len() ==> #[trigger] hist@[i] <= peak(hist@),
            forall|i: int|
                0 <= i < k ==> call_ensures(
                    *tone,
                    (hist@[i] as u64, top, n, width, height),
                    #[trigger] colors@[i],
                ),
        decreases cells - k,
    {
        let count = hist.count(k);
        let color = tone(count, top, n, width, height);
        colors.push(color);
        k = k + 1;
    }
    colors
}

/// A system together with what a render of it may reuse: the grid of counts
/// of the last render, and the mark that says whether the system was edited
/// since.
pub struct Renderer<A> {
    /// The system that is rendered.
    pub attractor: A,
    kind: Variant,
    cache: Option<Histogram>,
    dirty: bool,
}

impl<A: Attractor> Renderer<A> {
    /// The system that is rendered.
    pub closed spec fn system(&self) -> A {
        self.attractor
    }

    /// Kind of the system.
    pub closed spec fn spec_kind(&self) -> Variant {
        self.kind
    }

    /// Whether the system is marked as edited.
    pub closed spec fn spec_dirty(&self) -> bool {
        self.dirty
    }

    /// The grid of counts that is kept, if any.
    pub closed spec fn cached(&self) -> Option<Histogram> {
        self.cache
    }

    /// A grid that is kept is well-formed.
    pub closed spec fn wf(&self) -> bool {
        self.cache matches Some(hist) ==> hist.wf()
    }

    /// Whether a render of `width` by `height` pixels shows the kept grid
    /// again instead of counting anew: the variant keeps its grid, nothing
    /// was edited since the grid was made, and the grid has that size.
    pub open spec fn reuses(&self, width: nat, height: nat) -> bool {
        &&& self.spec_kind().spec_caches()
        &&& !self.spec_dirty()
        &&& self.cached() matches Some(hist) && hist.spec_width() == width && hist.spec_height()
            == height
    }

    /// Whether a render of `n` steps on `width` by `height` pixels that
    /// takes the renderer `self` to `after` shows the grid `counts`: the
    /// kept grid where it is reused, with the system untouched, and
    /// otherwise the grid that the system makes now, which a variant that
    /// keeps its grid then keeps.
    pub open spec fn renders(&self, after: Self, n: nat, width: nat, height: nat, counts: Seq<nat>) -> bool {
        &&& after.spec_kind() == self.spec_kind()
        &&& after.spec_dirty() == self.spec_dirty()
        &&& if self.reuses(width, height) {
            &&& after.system() == self.system()
            &&& after.cached() == self.cached()
            &&& counts == self.cached().unwrap()@
        } else {
            &&& makes_grid(
                self.system(),
                self.spec_kind(),
                n,
                width,
                height,
                counts,
                after.system(),
            )
            &&& if self.spec_kind().spec_caches() {
                after.cached() matches Some(hist) && hist@ == counts && hist.spec_width() == width
                    && hist.spec_height() == height
            } else {
                after.cached() is None
            }
        }
    }

    /// A renderer for `attractor`, a system of kind `kind`. Nothing is kept
    /// yet, and the system counts as edited.
    pub fn new(attractor: A, kind: Variant) -> (renderer: Self)
        ensures
            renderer.wf(),
            renderer.system() == attractor,
            renderer.spec_kind() == kind,
            renderer.spec_dirty(),
            renderer.cached() is None,
    {
        Renderer { attractor, kind, cache: None, dirty: true }
    }

    /// Kind of the system.
    pub fn kind(&self) -> (kind: Variant)
        ensures
            kind == self.spec_kind(),
    {
        self.kind
    }

    /// Whether the system is marked as edited.
    pub fn is_dirty(&self) -> (dirty: bool)
        ensures
            dirty == self.spec_dirty(),
    {
        self.dirty
    }

    /// The grid of counts that is kept, if any.
    pub fn histogram(&self) -> (kept: Option<&Histogram>)
        ensures
            kept is Some <==> self.cached() is Some,
            kept matches Some(hist) ==> *hist == self.cached().unwrap(),
    {
        self.cache.as_ref()
    }

    /// Marks the system as edited (`true`), so that the next render counts
    /// anew, or as unchanged since the last render (`false`).
    pub fn param_changed(&mut self, flag: bool)
        ensures
            final(self).spec_dirty() == flag,
            final(self).spec_kind() == old(self).spec_kind(),
            final(self).cached() == old(self).cached(),
            final(self).system() == old(self).system(),
            old(self).wf() ==> final(self).wf(),
    {
        self.dirty = flag;
    }

    /// Whether the next render of `width` by `height` pixels reuses the kept
    /// grid.
    pub fn will_reuse(&self, width: usize, height: usize) -> (reuse: bool)
        ensures
            reuse == self.reuses(width as nat, height as nat),
    {
        if !self.kind.caches() || self.dirty {
            return false;
        }
        match &self.cache {
            Some(hist) => hist.width() == width && hist.height() == height,
            None => false,
        }
    }

    /// Renders the system as a picture of `width` by `height` pixels from `n`
    /// steps, coloured by `tone`. The grid of counts is made anew unless the
    /// kept one can be reused; a variant that keeps its grid keeps the one
    /// that this picture shows. The mark that says whether the system was
    /// edited stays as it is.
    pub fn gen_img<F: Fn(u64, u64, usize, usize, usize) -> (u8, u8, u8)>(
        &mut self,
        n: usize,
        width: usize,
        height: usize,
        tone: &F,
    ) -> (img: DynamicImage)
        requires
            old(self).wf(),
            0 < width <= u32::MAX,
            0 < height <= u32::MAX,
            3 * (width * height) <= usize::MAX,
            tone_ready(*tone, n, width, height),
        ensures
            final(self).wf(),
            image_size(img) == (width as nat, height as nat),
            exists|counts: Seq<nat>, colors: Seq<(u8, u8, u8)>|
                {
                    &&& old(self).renders(
                        *final(self),
                        n as nat,
                        width as nat,
                        height as nat,
                        counts,
                    )
                    &&& #[trigger] toned(*tone, counts, n, width, height, colors)
                    &&& image_samples(img) == packed(colors)
                },
    {
        if !self.will_reuse(width, height) {
            let hist = gen_hist(&mut self.attractor, self.kind, n, width, height);
            self.cache = Some(hist);
        }
        let ghost counts = self.cache.unwrap()@;
        let colors = match &self.cache {
            Some(hist) => {
                proof {
                    hist.lemma_wf();
                }
                shade(hist, tone, n)
            },
            None => Vec::new(),
        };
        if !self.kind.caches() {
            self.cache = None;
        }
        let img = assemble(width, height, &colors).unwrap();
        proof {
            assert(toned(*tone, counts, n, width, height, colors@));
        }
        img
    }
}

} // verus!
