//! From a system to its grid of counts: the search for the extent of the
//! trajectory and the counting of visits.
//!
//! A run of `n` steps is the sequence of the `n + 1` states that the system
//! passes through, the first being its initial condition. The contracts of
//! this module say which states are looked at and in which order, in terms
//! of the relations that an [`Attractor`] declares for its operations.

use crate::attractor::Attractor;
use crate::catalog::Variant;
use crate::histogram::binned;
use crate::histogram::blank;
use crate::histogram::lemma_binned_len;
use crate::histogram::lemma_binned_total;
use crate::histogram::lemma_blank;
use crate::histogram::lemma_peak_bounds;
use crate::histogram::peak;
use crate::histogram::total;
use crate::histogram::Histogram;
use vstd::prelude::*;

verus! {

/// Number of steps of a run of `n` steps that count, when the first `skip`
/// do not.
pub open spec fn counted(n: nat, skip: nat) -> nat {
    if n >= skip {
        (n - skip) as nat
    } else {
        0
    }
}

/// Whether state `j` of `run` is one step after the state before it.
pub open spec fn step_at<A: Attractor>(run: Seq<A>, j: int) -> bool {
    run[j - 1].steps_to(run[j])
}

/// Whether `run` holds the states of a run of `start`: the initial condition
/// of `start` first, then the state after each step.
pub open spec fn is_run<A: Attractor>(start: A, run: Seq<A>) -> bool {
    &&& run.len() > 0
    &&& start.resets_to(run[0])
    &&& forall|j: int| 0 < j < run.len() ==> #[trigger] step_at(run, j)
}

/// Whether extent `k` of `boxes` is the one before it, widened by the state
/// after counted step `k` of a run whose first `skip` steps do not count.
pub open spec fn widen_at<A: Attractor>(
    run: Seq<A>,
    skip: nat,
    boxes: Seq<A::Bounds>,
    k: int,
) -> bool {
    run[skip + k].widens(boxes[k - 1], boxes[k])
}

/// Whether `boxes` holds the extents that a search along `run` passes
/// through: the empty extent, then one more for the state after each step
/// but the first `skip`.
pub open spec fn is_survey<A: Attractor>(run: Seq<A>, skip: nat, boxes: Seq<A::Bounds>) -> bool {
    &&& run.len() > 0
    &&& boxes.len() == counted((run.len() - 1) as nat, skip) + 1
    &&& run[0].starts_search(boxes[0])
    &&& forall|k: int| 0 < k < boxes.len() ==> #[trigger] widen_at(run, skip, boxes, k)
}

/// Whether a search of `samples` steps from the initial condition of `start`,
/// of which the first `skip` do not count, finds the extent `seen` and leaves
/// the system as `end`: back at its initial condition.
pub open spec fn surveys<A: Attractor>(
    start: A,
    samples: nat,
    skip: nat,
    seen: A::Bounds,
    end: A,
) -> bool {
    exists|run: Seq<A>, boxes: Seq<A::Bounds>|
        {
            &&& is_run(start, run)
            &&& run.len() == samples + 1
            &&& #[trigger] is_survey(run, skip, boxes)
            &&& boxes.last() == seen
            &&& run.last().resets_to(end)
        }
}

/// Whether sight `j` is where `view` puts the state after counted step
/// `j + 1` of a run whose first `skip` steps do not count.
pub open spec fn sight_at<A: Attractor>(
    run: Seq<A>,
    view: A::Viewport,
    skip: nat,
    sights: Seq<(i64, i64)>,
    j: int,
) -> bool {
    run[skip + 1 + j].locates(view, sights[j])
}

/// Whether `sights` holds, in order, where `view` puts the state after each
/// step of `run` but the first `skip`.
pub open spec fn are_sights<A: Attractor>(
    run: Seq<A>,
    view: A::Viewport,
    skip: nat,
    sights: Seq<(i64, i64)>,
) -> bool {
    &&& run.len() > 0
    &&& sights.len() == counted((run.len() - 1) as nat, skip)
    &&& forall|j: int| 0 <= j < sights.len() ==> #[trigger] sight_at(run, view, skip, sights, j)
}

/// Pixel offsets as points of the plane of whole numbers.
pub open spec fn as_points(sights: Seq<(i64, i64)>) -> Seq<(int, int)> {
    Seq::new(sights.len(), |j: int| (sights[j].0 as int, sights[j].1 as int))
}

/// Whether `counts` is the grid of `width` by `height` cells that a run of
/// `n` steps from the initial condition of `start` leaves when `view` places
/// the state after each step but the first `skip`, the system ending as
/// `end`.
pub open spec fn counts_run<A: Attractor>(
    start: A,
    view: A::Viewport,
    n: nat,
    skip: nat,
    width: nat,
    height: nat,
    counts: Seq<nat>,
    end: A,
) -> bool {
    exists|run: Seq<A>, sights: Seq<(i64, i64)>|
        {
            &&& is_run(start, run)
            &&& run.len() == n + 1
            &&& run.last() == end
            &&& #[trigger] are_sights(run, view, skip, sights)
            &&& counts == binned(as_points(sights), width as int, height as int)
        }
}

/// Whether `counts` is the grid for a render of `n` steps of the system
/// `start` of kind `kind`: the search finds an extent, and either a viewport
/// fits it and the counting pass fills the grid, or none does and the grid
/// stays blank.
pub open spec fn makes_grid<A: Attractor>(
    start: A,
    kind: Variant,
    n: nat,
    width: nat,
    height: nat,
    counts: Seq<nat>,
    end: A,
) -> bool {
    exists|seen: A::Bounds, mid: A, view: Option<A::Viewport>|
        {
            &&& surveys(start, kind.spec_edge_samples(n), kind.spec_skip(), seen, mid)
            &&& #[trigger] mid.fits(seen, width, height, view)
            &&& match view {
                Some(v) => counts_run(mid, v, n, kind.spec_skip(), width, height, counts, end),
                None => counts == blank(width as int, height as int) && end == mid,
            }
        }
}

/// A system without hidden randomness: what a reset and what a step lead to
/// is determined by the state they start from.
pub open spec fn deterministic<A: Attractor>() -> bool {
    &&& forall|a: A, b: A, c: A| #[trigger] a.resets_to(b) && #[trigger] a.resets_to(c) ==> b == c
    &&& forall|a: A, b: A, c: A| #[trigger] a.steps_to(b) && #[trigger] a.steps_to(c) ==> b == c
}

/// Two runs of a system without hidden randomness that start from the same
/// state and take the same number of steps pass through the same states.
pub proof fn lemma_runs_agree<A: Attractor>(start: A, first: Seq<A>, second: Seq<A>)
    requires
        deterministic::<A>(),
        is_run(start, first),
        is_run(start, second),
        first.len() == second.len(),
    ensures
        first == second,
{
    assert forall|j: int| 0 <= j < first.len() implies first[j] == second[j] by {
        lemma_runs_agree_at(start, first, second, j);
    }
    assert(first =~= second);
}

proof fn lemma_runs_agree_at<A: Attractor>(start: A, first: Seq<A>, second: Seq<A>, j: int)
    requires
        deterministic::<A>(),
        is_run(start, first),
        is_run(start, second),
        first.len() == second.len(),
        0 <= j < first.len(),
    ensures
        first[j] == second[j],
    decreases j,
{
    if j > 0 {
        lemma_runs_agree_at(start, first, second, j - 1);
        assert(step_at(first, j));
        assert(step_at(second, j));
    }
}

/// A system all of whose operations are free of hidden randomness: besides
/// resets and steps, what a search starts from, what widening and fitting
/// give and where a state is placed are determined by what they are given.
pub open spec fn repeatable<A: Attractor>() -> bool {
    &&& deterministic::<A>()
    &&& forall|a: A, b: A::Bounds, c: A::Bounds| #[trigger]
        a.starts_search(b) && #[trigger] a.starts_search(c) ==> b == c
    &&& forall|a: A, seen: A::Bounds, b: A::Bounds, c: A::Bounds| #[trigger]
        a.widens(seen, b) && #[trigger] a.widens(seen, c) ==> b == c
    &&& forall|
        a: A,
        seen: A::Bounds,
        width: nat,
        height: nat,
        u: Option<A::Viewport>,
        v: Option<A::Viewport>,
    | #[trigger]
        a.fits(seen, width, height, u) && #[trigger] a.fits(seen, width, height, v) ==> u == v
    &&& forall|a: A, view: A::Viewport, p: (i64, i64), q: (i64, i64)| #[trigger]
        a.locates(view, p) && #[trigger] a.locates(view, q) ==> p == q
}

proof fn lemma_surveys_agree_at<A: Attractor>(
    run: Seq<A>,
    skip: nat,
    first: Seq<A::Bounds>,
    second: Seq<A::Bounds>,
    k: int,
)
    requires
        repeatable::<A>(),
        is_survey(run, skip, first),
        is_survey(run, skip, second),
        0 <= k < first.len(),
    ensures
        first[k] == second[k],
    decreases k,
{
    if k > 0 {
        lemma_surveys_agree_at(run, skip, first, second, k - 1);
        assert(widen_at(run, skip, first, k));
        assert(widen_at(run, skip, second, k));
    }
}

/// Two searches of a repeatable system that start from the same state and
/// take the same steps find the same extent and leave the same state.
pub proof fn lemma_survey_unique<A: Attractor>(
    start: A,
    samples: nat,
    skip: nat,
    seen1: A::Bounds,
    end1: A,
    seen2: A::Bounds,
    end2: A,
)
    requires
        repeatable::<A>(),
        surveys(start, samples, skip, seen1, end1),
        surveys(start, samples, skip, seen2, end2),
    ensures
        seen1 == seen2,
        end1 == end2,
{
    let (run1, boxes1) = choose|run: Seq<A>, boxes: Seq<A::Bounds>|
        {
            &&& is_run(start, run)
            &&& run.len() == samples + 1
            &&& #[trigger] is_survey(run, skip, boxes)
            &&& boxes.last() == seen1
            &&& run.last().resets_to(end1)
        };
    let (run2, boxes2) = choose|run: Seq<A>, boxes: Seq<A::Bounds>|
        {
            &&& is_run(start, run)
            &&& run.len() == samples + 1
            &&& #[trigger] is_survey(run, skip, boxes)
            &&& boxes.last() == seen2
            &&& run.last().resets_to(end2)
        };
    lemma_runs_agree(start, run1, run2);
    lemma_surveys_agree_at(run1, skip, boxes1, boxes2, boxes1.len() - 1);
}

/// Two counting passes of a repeatable system that start from the same
/// state leave the same grid and the same state.
pub proof fn lemma_counts_unique<A: Attractor>(
    start: A,
    view: A::Viewport,
    n: nat,
    skip: nat,
    width: nat,
    height: nat,
    counts1: Seq<nat>,
    end1: A,
    counts2: Seq<nat>,
    end2: A,
)
    requires
        repeatable::<A>(),
        counts_run(start, view, n, skip, width, height, counts1, end1),
        counts_run(start, view, n, skip, width, height, counts2, end2),
    ensures
        counts1 == counts2,
        end1 == end2,
{
    let (run1, sights1) = choose|run: Seq<A>, sights: Seq<(i64, i64)>|
        {
            &&& is_run(start, run)
            &&& run.len() == n + 1
            &&& run.last() == end1
            &&& #[trigger] are_sights(run, view, skip, sights)
            &&& counts1 == binned(as_points(sights), width as int, height as int)
        };
    let (run2, sights2) = choose|run: Seq<A>, sights: Seq<(i64, i64)>|
        {
            &&& is_run(start, run)
            &&& run.len() == n + 1
            &&& run.last() == end2
            &&& #[trigger] are_sights(run, view, skip, sights)
            &&& counts2 == binned(as_points(sights), width as int, height as int)
        };
    lemma_runs_agree(start, run1, run2);
    assert forall|j: int| 0 <= j < sights1.len() implies sights1[j] == sights2[j] by {
        assert(sight_at(run1, view, skip, sights1, j));
        assert(sight_at(run2, view, skip, sights2, j));
    }
    assert(sights1 =~= sights2);
}

/// Rendering a repeatable system twice from the same state gives the same
/// grid of counts both times, and leaves the system in the same state.
pub proof fn lemma_grid_unique<A: Attractor>(
    start: A,
    kind: Variant,
    n: nat,
    width: nat,
    height: nat,
    counts1: Seq<nat>,
    end1: A,
    counts2: Seq<nat>,
    end2: A,
)
    requires
        repeatable::<A>(),
        makes_grid(start, kind, n, width, height, counts1, end1),
        makes_grid(start, kind, n, width, height, counts2, end2),
    ensures
        counts1 == counts2,
        end1 == end2,
{
    let skip = kind.spec_skip();
    let samples = kind.spec_edge_samples(n);
    let (seen1, mid1, view1) = choose|seen: A::Bounds, mid: A, view: Option<A::Viewport>|
        {
            &&& surveys(start, samples, skip, seen, mid)
            &&& #[trigger] mid.fits(seen, width, height, view)
            &&& match view {
                Some(v) => counts_run(mid, v, n, skip, width, height, counts1, end1),
                None => counts1 == blank(width as int, height as int) && end1 == mid,
            }
        };
    let (seen2, mid2, view2) = choose|seen: A::Bounds, mid: A, view: Option<A::Viewport>|
        {
            &&& surveys(start, samples, skip, seen, mid)
            &&& #[trigger] mid.fits(seen, width, height, view)
            &&& match view {
                Some(v) => counts_run(mid, v, n, skip, width, height, counts2, end2),
                None => counts2 == blank(width as int, height as int) && end2 == mid,
            }
        };
    lemma_survey_unique(start, samples, skip, seen1, mid1, seen2, mid2);
    assert(view1 == view2);
    match view1 {
        Some(v) => {
            lemma_counts_unique(mid1, v, n, skip, width, height, counts1, end1, counts2, end2);
        },
        None => {},
    }
}

/// Every counted step of a run lands in exactly one cell: the grid that a
/// run leaves has one count for each cell, and its counts add up to the
/// number of steps less those that were skipped.
pub proof fn lemma_counts_run_total<A: Attractor>(
    start: A,
    view: A::Viewport,
    n: nat,
    skip: nat,
    width: nat,
    height: nat,
    counts: Seq<nat>,
    end: A,
)
    requires
        width > 0,
        height > 0,
        counts_run(start, view, n, skip, width, height, counts, end),
    ensures
        counts.len() == width * height,
        total(counts) == counted(n, skip),
        peak(counts) <= counted(n, skip),
{
    let (run, sights) = choose|run: Seq<A>, sights: Seq<(i64, i64)>|
        {
            &&& is_run(start, run)
            &&& run.len() == n + 1
            &&& run.last() == end
            &&& #[trigger] are_sights(run, view, skip, sights)
            &&& counts == binned(as_points(sights), width as int, height as int)
        };
    lemma_binned_len(as_points(sights), width as int, height as int);
    lemma_binned_total(as_points(sights), width as int, height as int);
    lemma_peak_bounds(counts);
}

/// The grid of a render is blank, or its counts add up to the number of
/// steps less those that the variant skips.
pub proof fn lemma_makes_grid_total<A: Attractor>(
    start: A,
    kind: Variant,
    n: nat,
    width: nat,
    height: nat,
    counts: Seq<nat>,
    end: A,
)
    requires
        width > 0,
        height > 0,
        makes_grid(start, kind, n, width, height, counts, end),
    ensures
        counts.len() == width * height,
        counts == blank(width as int, height as int) || total(counts) == counted(
            n,
            kind.spec_skip(),
        ),
{
    let (seen, mid, view) = choose|seen: A::Bounds, mid: A, view: Option<A::Viewport>|
        {
            &&& surveys(start, kind.spec_edge_samples(n), kind.spec_skip(), seen, mid)
            &&& #[trigger] mid.fits(seen, width, height, view)
            &&& match view {
                Some(v) => counts_run(mid, v, n, kind.spec_skip(), width, height, counts, end),
                None => counts == blank(width as int, height as int) && end == mid,
            }
        };
    match view {
        Some(v) => {
            lemma_counts_run_total(mid, v, n, kind.spec_skip(), width, height, counts, end);
        },
        None => {
            lemma_blank(width as int, height as int);
        },
    }
}

/// Runs the system for `n` steps from its initial condition and returns the
/// extent of the states after the first `skip` steps. The system is put back
/// at its initial condition afterwards.
pub fn search_edges<A: Attractor>(a: &mut A, n: usize, skip: usize) -> (seen: A::Bounds)
    ensures
        surveys(*old(a), n as nat, skip as nat, seen, *final(a)),
{
    a.set_init();
    let mut seen = a.unseen();
    let ghost start = *old(a);
    let ghost mut run: Seq<A> = seq![*a];
    let ghost mut boxes: Seq<A::Bounds> = seq![seen];
    let mut i: usize = 0;
    while i < n
        invariant
            i <= n,
            is_run(start, run),
            run.len() == i + 1,
            run.last() == *a,
            is_survey(run, skip as nat, boxes),
            boxes.last() == seen,
        decreases n - i,
    {
        let ghost before = run;
        let ghost boxes_before = boxes;
        a.apply_map_func();
        proof {
            run = before.push(*a);
            assert forall|j: int| 0 < j < run.len() implies #[trigger] step_at(run, j) by {
                if j < before.len() {
                    assert(step_at(before, j));
                }
            }
        }
        if i >= skip {
            let ghost narrower = seen;
            seen = a.widen(seen);
            proof {
                boxes = boxes_before.push(seen);
            }
        }
        proof {
            assert forall|k: int| 0 < k < boxes.len() implies #[trigger] widen_at(
                run,
                skip as nat,
                boxes,
                k,
            ) by {
                if k < boxes_before.len() {
                    assert(widen_at(before, skip as nat, boxes_before, k));
                }
            }
        }
        i = i + 1;
    }
    a.set_init();
    seen
}

/// Runs the system for `n` steps from its initial condition and counts, on a
/// grid of `width` by `height` cells, where `view` puts the state after each
/// step but the first `skip`. Every counted step lands in exactly one cell.
pub fn accumulate<A: Attractor>(
    a: &mut A,
    view: &A::Viewport,
    n: usize,
    skip: usize,
    width: usize,
    height: usize,
) -> (hist: Histogram)
    requires
        width > 0,
        height > 0,
        width * height <= usize::MAX,
    ensures
        hist.wf(),
        hist.spec_width() == width,
        hist.spec_height() == height,
        counts_run(
            *old(a),
            *view,
            n as nat,
            skip as nat,
            width as nat,
            height as nat,
            hist@,
            *final(a),
        ),
        total(hist@) == counted(n as nat, skip as nat),
{
    let mut hist = Histogram::new(width, height);
    a.set_init();
    let ghost start = *old(a);
    let ghost mut run: Seq<A> = seq![*a];
    let ghost mut sights: Seq<(i64, i64)> = Seq::empty();
    proof {
        lemma_blank(width as int, height as int);
        assert(as_points(sights) =~= Seq::<(int, int)>::empty());
    }
    let mut i: usize = 0;
    while i < n
        invariant
            i <= n,
            width > 0,
            height > 0,
            hist.wf(),
            hist.spec_width() == width,
            hist.spec_height() == height,
            is_run(start, run),
            run.len() == i + 1,
            run.last() == *a,
            are_sights(run, *view, skip as nat, sights),
            hist@ == binned(as_points(sights), width as int, height as int),
            total(hist@) == sights.len(),
        decreases n - i,
    {
        let ghost before = run;
        let ghost sights_before = sights;
        a.apply_map_func();
        proof {
            run = before.push(*a);
            assert forall|j: int| 0 < j < run.len() implies #[trigger] step_at(run, j) by {
                if j < before.len() {
                    assert(step_at(before, j));
                }
            }
        }
        if i >= skip {
            let at = a.locate(view);
            hist.record(at.0, at.1);
            proof {
                sights = sights_before.push(at);
                let p = (at.0 as int, at.1 as int);
                assert(as_points(sights) =~= as_points(sights_before).push(p));
                assert(as_points(sights).drop_last() =~= as_points(sights_before));
                lemma_binned_total(as_points(sights), width as int, height as int);
            }
        }
        proof {
            assert forall|j: int| 0 <= j < sights.len() implies #[trigger] sight_at(
                run,
                *view,
                skip as nat,
                sights,
                j,
            ) by {
                if j < sights_before.len() {
                    assert(sight_at(before, *view, skip as nat, sights_before, j));
                }
            }
        }
        i = i + 1;
    }
    hist
}

/// The grid of counts for a render of `n` steps of a system of kind `kind`
/// on `width` by `height` cells. A search pass finds the extent of the
/// trajectory; the counting pass then starts again from the initial
/// condition. Where the extent has no width or no height the trajectory
/// shows no structure, and the grid stays blank.
pub fn gen_hist<A: Attractor>(a: &mut A, kind: Variant, n: usize, width: usize, height: usize) -> (hist:
    Histogram)
    requires
        width > 0,
        height > 0,
        width * height <= usize::MAX,
    ensures
        hist.wf(),
        hist.spec_width() == width,
        hist.spec_height() == height,
        makes_grid(*old(a), kind, n as nat, width as nat, height as nat, hist@, *final(a)),
{
    let skip = kind.skip();
    let seen = search_edges(a, kind.edge_samples(n), skip);
    let ghost mid = *a;
    let view = a.fit(&seen, width, height);
    match view {
        Some(v) => {
            let hist = accumulate(a, &v, n, skip, width, height);
            proof {
                assert(mid.fits(seen, width as nat, height as nat, view));
            }
            hist
        },
        None => {
            proof {
                assert(mid.fits(seen, width as nat, height as nat, view));
            }
            Histogram::new(width, height)
        },
    }
}

} // verus!
