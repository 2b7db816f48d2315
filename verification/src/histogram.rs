//! The grid of visit counts and the placement of points on it.
//!
//! A point reaches the grid as a pair of whole-pixel offsets from the centre
//! of the picture: first the horizontal one, then the vertical one. The grid
//! is row-major with the origin at the top left, so the cell of row `r` and
//! column `c` has index `r * width + c`.

use vstd::prelude::*;

verus! {

/// Cell on an axis of `dim` cells for a point whose rounded distance from the
/// centre of the picture is `offset`: the centre cell `dim / 2` moved by
/// `offset`, brought back into `[0, dim - 1]` when it falls outside.
pub open spec fn bin_of(offset: int, dim: int) -> int {
    let shifted = offset + dim / 2;
    if shifted < 0 {
        0
    } else if shifted > dim - 1 {
        dim - 1
    } else {
        shifted
    }
}

/// Index of the cell that the point with offsets `p` falls into, on a grid of
/// `width` columns and `height` rows.
pub open spec fn cell_of(p: (int, int), width: int, height: int) -> int {
    bin_of(p.1, height) * width + bin_of(p.0, width)
}

/// The counts of a grid that no point has reached yet.
pub open spec fn blank(width: int, height: int) -> Seq<nat> {
    Seq::new((width * height) as nat, |i: int| 0nat)
}

/// The counts after one more visit to cell `k`.
pub open spec fn bumped(counts: Seq<nat>, k: int) -> Seq<nat> {
    counts.update(k, counts[k] + 1)
}

/// The counts after the points `pts` have been binned, in order.
pub open spec fn binned(pts: Seq<(int, int)>, width: int, height: int) -> Seq<nat>
    decreases pts.len(),
{
    if pts.len() == 0 {
        blank(width, height)
    } else {
        bumped(binned(pts.drop_last(), width, height), cell_of(pts.last(), width, height))
    }
}

/// Sum of all counts.
pub open spec fn total(counts: Seq<nat>) -> nat
    decreases counts.len(),
{
    if counts.len() == 0 {
        0
    } else {
        total(counts.drop_last()) + counts.last()
    }
}

/// Largest count; zero for a grid without cells.
pub open spec fn peak(counts: Seq<nat>) -> nat
    decreases counts.len(),
{
    if counts.len() == 0 {
        0
    } else {
        let rest = peak(counts.drop_last());
        if counts.last() > rest {
            counts.last()
        } else {
            rest
        }
    }
}

/// A point never falls outside the grid, however far away it lies.
pub proof fn lemma_cell_in_range(p: (int, int), width: int, height: int)
    requires
        width > 0,
        height > 0,
    ensures
        0 <= cell_of(p, width, height) < width * height,
{
    lemma_index_fits(bin_of(p.1, height), bin_of(p.0, width), width, height);
}

/// One more visit to a cell of the grid raises the sum by exactly one.
pub proof fn lemma_total_bumped(counts: Seq<nat>, k: int)
    requires
        0 <= k < counts.len(),
    ensures
        total(bumped(counts, k)) == total(counts) + 1,
    decreases counts.len(),
{
    let after = bumped(counts, k);
    if k == counts.len() - 1 {
        assert(after.drop_last() =~= counts.drop_last());
    } else {
        assert(after.drop_last() =~= bumped(counts.drop_last(), k));
        lemma_total_bumped(counts.drop_last(), k);
    }
}

/// After one more visit to cell `k` the largest count is the former one or
/// the new count of `k`, whichever is larger.
pub proof fn lemma_peak_bumped(counts: Seq<nat>, k: int)
    requires
        0 <= k < counts.len(),
    ensures
        peak(bumped(counts, k)) == if counts[k] + 1 > peak(counts) {
            counts[k] + 1
        } else {
            peak(counts)
        },
    decreases counts.len(),
{
    let after = bumped(counts, k);
    lemma_peak_bounds(counts);
    if k == counts.len() - 1 {
        assert(after.drop_last() =~= counts.drop_last());
    } else {
        assert(after.drop_last() =~= bumped(counts.drop_last(), k));
        lemma_peak_bumped(counts.drop_last(), k);
        lemma_peak_bounds(counts.drop_last());
    }
}

/// No count exceeds the largest, and the largest does not exceed the sum.
pub proof fn lemma_peak_bounds(counts: Seq<nat>)
    ensures
        forall|i: int| 0 <= i < counts.len() ==> #[trigger] counts[i] <= peak(counts),
        peak(counts) <= total(counts),
    decreases counts.len(),
{
    if counts.len() > 0 {
        lemma_peak_bounds(counts.drop_last());
        assert forall|i: int| 0 <= i < counts.len() implies #[trigger] counts[i] <= peak(
            counts,
        ) by {
            if i < counts.len() - 1 {
                assert(counts.drop_last()[i] == counts[i]);
            }
        }
    }
}

/// A blank grid has one zero for each cell.
pub proof fn lemma_blank(width: int, height: int)
    requires
        width >= 0,
        height >= 0,
    ensures
        blank(width, height).len() == width * height,
        total(blank(width, height)) == 0,
        peak(blank(width, height)) == 0,
{
    assert(width * height >= 0) by (nonlinear_arith)
        requires
            width >= 0,
            height >= 0,
    ;
    lemma_zeros(blank(width, height));
}

proof fn lemma_zeros(counts: Seq<nat>)
    requires
        forall|i: int| 0 <= i < counts.len() ==> counts[i] == 0,
    ensures
        total(counts) == 0,
        peak(counts) == 0,
    decreases counts.len(),
{
    if counts.len() > 0 {
        lemma_zeros(counts.drop_last());
    }
}

/// Binning keeps the size of the grid.
pub proof fn lemma_binned_len(pts: Seq<(int, int)>, width: int, height: int)
    requires
        width > 0,
        height > 0,
    ensures
        binned(pts, width, height).len() == width * height,
    decreases pts.len(),
{
    if pts.len() == 0 {
        lemma_blank(width, height);
    } else {
        lemma_binned_len(pts.drop_last(), width, height);
        lemma_cell_in_range(pts.last(), width, height);
    }
}

/// Every point lands in exactly one cell: the counts of a grid add up to the
/// number of points binned into it. A point outside the picture is moved to
/// its edge and counted there; none is dropped.
pub proof fn lemma_binned_total(pts: Seq<(int, int)>, width: int, height: int)
    requires
        width > 0,
        height > 0,
    ensures
        total(binned(pts, width, height)) == pts.len(),
    decreases pts.len(),
{
    if pts.len() == 0 {
        lemma_blank(width, height);
    } else {
        let before = binned(pts.drop_last(), width, height);
        lemma_binned_total(pts.drop_last(), width, height);
        lemma_binned_len(pts.drop_last(), width, height);
        lemma_cell_in_range(pts.last(), width, height);
        lemma_total_bumped(before, cell_of(pts.last(), width, height));
    }
}

/// Computes [`bin_of`] without overflow, whatever the offset.
pub fn bin(offset: i64, dim: usize) -> (cell: usize)
    requires
        dim > 0,
    ensures
        cell == bin_of(offset as int, dim as int),
        cell < dim,
{
    let shifted: i128 = offset as i128 + (dim / 2) as i128;
    if shifted < 0 {
        0
    } else if shifted > (dim - 1) as i128 {
        dim - 1
    } else {
        shifted as usize
    }
}

/// A dense grid of visit counts, row-major, together with its largest count.
pub struct Histogram {
    width: usize,
    height: usize,
    cells: Vec<u64>,
    max_count: u64,
}

impl View for Histogram {
    type V = Seq<nat>;

    /// The counts, cell by cell.
    closed spec fn view(&self) -> Seq<nat> {
        Seq::new(self.cells@.len(), |i: int| self.cells@[i] as nat)
    }
}

impl Histogram {
    /// Number of columns.
    pub closed spec fn spec_width(&self) -> nat {
        self.width as nat
    }

    /// Number of rows.
    pub closed spec fn spec_height(&self) -> nat {
        self.height as nat
    }

    /// Largest count that the grid has recorded for itself.
    pub closed spec fn spec_max_count(&self) -> nat {
        self.max_count as nat
    }

    /// The grid has at least one cell, one count for each cell, and knows its
    /// largest count; the sum of its counts fits the counter type.
    pub closed spec fn wf(&self) -> bool {
        &&& self.width > 0
        &&& self.height > 0
        &&& self.cells@.len() == self.width * self.height
        &&& self.max_count == peak(self@)
        &&& total(self@) <= u64::MAX
    }

    /// What well-formedness means in terms of the view.
    pub proof fn lemma_wf(&self)
        requires
            self.wf(),
        ensures
            self.spec_width() > 0,
            self.spec_height() > 0,
            self@.len() == self.spec_width() * self.spec_height(),
            self.spec_max_count() == peak(self@),
            total(self@) <= u64::MAX,
            self@.len() <= usize::MAX,
    {
        assert(self.cells.len() == self.cells@.len());
    }

    /// A grid of `width` by `height` cells that no point has reached yet.
    pub fn new(width: usize, height: usize) -> (hist: Histogram)
        requires
            width > 0,
            height > 0,
            width * height <= usize::MAX,
        ensures
            hist.wf(),
            hist.spec_width() == width,
            hist.spec_height() == height,
            hist@ == blank(width as int, height as int),
            hist.spec_max_count() == 0,
    {
        let size = width * height;
        let mut cells: Vec<u64> = Vec::new();
        let mut i: usize = 0;
        while i < size
            invariant
                i <= size,
                cells@.len() == i,
                forall|j: int| 0 <= j < i ==> cells@[j] == 0,
            decreases size - i,
        {
            cells.push(0);
            i = i + 1;
        }
        let hist = Histogram { width, height, cells, max_count: 0 };
        proof {
            assert(hist@ =~= blank(width as int, height as int));
            lemma_blank(width as int, height as int);
        }
        hist
    }

    /// Number of columns.
    pub fn width(&self) -> (w: usize)
        ensures
            w == self.spec_width(),
    {
        self.width
    }

    /// Number of rows.
    pub fn height(&self) -> (h: usize)
        ensures
            h == self.spec_height(),
    {
        self.height
    }

    /// Largest count in the grid.
    pub fn max_count(&self) -> (m: u64)
        requires
            self.wf(),
        ensures
            m == peak(self@),
    {
        self.max_count
    }

    /// Count of the cell with index `k`.
    pub fn count(&self, k: usize) -> (c: u64)
        requires
            k < self@.len(),
        ensures
            c == self@[k as int],
    {
        self.cells[k]
    }

    /// Count of the cell in row `row` and column `col`.
    pub fn get(&self, row: usize, col: usize) -> (c: u64)
        requires
            self.wf(),
            row < self.spec_height(),
            col < self.spec_width(),
        ensures
            c == self@[row * self.spec_width() + col],
    {
        proof {
            lemma_index_fits(row as int, col as int, self.width as int, self.height as int);
            assert(self.cells.len() == self.cells@.len());
        }
        self.cells[row * self.width + col]
    }

    /// Sum of all counts.
    pub fn total(&self) -> (sum: u64)
        requires
            self.wf(),
        ensures
            sum == total(self@),
    {
        let n = self.cells.len();
        let mut sum: u64 = 0;
        let mut i: usize = 0;
        while i < n
            invariant
                i <= n,
                n == self.cells@.len(),
                self@.len() == n,
                sum == total(self@.subrange(0, i as int)),
                total(self@) <= u64::MAX,
            decreases n - i,
        {
            proof {
                let upto = self@.subrange(0, i + 1);
                assert(upto.drop_last() =~= self@.subrange(0, i as int));
                lemma_total_prefix(self@, i + 1);
            }
            sum = sum + self.cells[i];
            i = i + 1;
        }
        proof {
            assert(self@.subrange(0, n as int) =~= self@);
        }
        sum
    }

    /// Counts the point with offsets `dx` (horizontal) and `dy` (vertical)
    /// from the centre of the picture in the cell that it falls into.
    pub fn record(&mut self, dx: i64, dy: i64)
        requires
            old(self).wf(),
            total(old(self)@) < u64::MAX,
        ensures
            final(self).wf(),
            final(self).spec_width() == old(self).spec_width(),
            final(self).spec_height() == old(self).spec_height(),
            final(self)@ == bumped(
                old(self)@,
                cell_of(
                    (dx as int, dy as int),
                    old(self).spec_width() as int,
                    old(self).spec_height() as int,
                ),
            ),
    {
        let col = bin(dx, self.width);
        let row = bin(dy, self.height);
        let ghost before = self@;
        let ghost k = cell_of((dx as int, dy as int), self.width as int, self.height as int);
        proof {
            lemma_cell_in_range((dx as int, dy as int), self.width as int, self.height as int);
            lemma_peak_bounds(before);
            lemma_total_bumped(before, k);
            lemma_peak_bumped(before, k);
            assert(before[k] <= total(before));
        }
        proof {
            lemma_index_fits(row as int, col as int, self.width as int, self.height as int);
            assert(self.cells.len() == self.cells@.len());
        }
        let idx = row * self.width + col;
        let seen = self.cells[idx] + 1;
        self.cells.set(idx, seen);
        if seen > self.max_count {
            self.max_count = seen;
        }
        proof {
            assert(self@ =~= bumped(before, k));
        }
    }
}

/// The index of a cell of the grid is smaller than the number of cells.
proof fn lemma_index_fits(row: int, col: int, width: int, height: int)
    requires
        0 <= row < height,
        0 <= col < width,
    ensures
        0 <= row * width <= row * width + col < width * height,
{
    assert(row * width + col < height * width && 0 <= row * width) by (nonlinear_arith)
        requires
            0 <= row < height,
            0 <= col < width,
    ;
    assert(height * width == width * height) by (nonlinear_arith);
}

/// The sum of a prefix does not exceed the sum of the whole.
proof fn lemma_total_prefix(counts: Seq<nat>, len: int)
    requires
        0 <= len <= counts.len(),
    ensures
        total(counts.subrange(0, len)) <= total(counts),
    decreases counts.len() - len,
{
    if len < counts.len() {
        lemma_total_prefix(counts, len + 1);
        assert(counts.subrange(0, len + 1).drop_last() =~= counts.subrange(0, len));
    } else {
        assert(counts.subrange(0, len) =~= counts);
    }
}

} // verus!
