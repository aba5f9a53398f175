//! How much of a window can be seen past the windows stacked above it.

use crate::geometry::{intersect_rect, rect_area, subtract_rect, Rect};
use vstd::prelude::*;

verus! {

/// The window whose visibility is asked for.
#[derive(Clone, Copy, Debug, PartialEq, Eq, Structural)]
pub struct TargetWindow {
    pub iconic: bool,
    pub visible: bool,
    /// Its bounds, where they could be read.
    pub rect: Option<Rect>,
    /// The work area of the monitor that holds it, where it could be read.
    pub work_area: Option<Rect>,
}

/// A window stacked above the target.
#[derive(Clone, Copy, Debug, PartialEq, Eq, Structural)]
pub struct StackedWindow {
    pub visible: bool,
    pub iconic: bool,
    /// The process that owns it.
    pub pid: u32,
    /// Non-zero for windows that the compositor keeps but never paints.
    pub cloaked: u32,
    /// Its bounds, where they could be read.
    pub rect: Option<Rect>,
}

/// The visible part of a window as a fraction of pixels. `total` is zero for a
/// window that shows nothing at all.
#[derive(Clone, Copy, Debug, PartialEq, Eq, Structural)]
pub struct VisibleShare {
    pub visible: i64,
    pub total: i32,
}

impl TargetWindow {
    /// The target takes part in the measurement at all.
    pub open spec fn shown(self) -> bool {
        !self.iconic && self.visible && self.rect is Some
    }

    /// The bounds clipped to the work area.
    pub open spec fn clip(self) -> Rect {
        match self.work_area {
            Some(area) => self.rect->0.overlap(area),
            None => self.rect->0.overlap(self.rect->0),
        }
    }

    /// The on-screen bounds, where the target has any pixel on screen.
    pub open spec fn on_screen(self) -> Option<Rect> {
        if self.shown() && self.clip().area() > 0 {
            Some(self.clip())
        } else {
            None
        }
    }
}

impl StackedWindow {
    /// The window can hide what is below it from a viewer of process
    /// `self_pid`: it is painted and belongs to another process.
    pub open spec fn occludes(self, self_pid: u32) -> bool {
        self.visible && !self.iconic && self.pid != self_pid && self.cloaked == 0 && self.rect is Some
    }
}

/// The pixels under at least one occluding window.
pub open spec fn occluded(above: Seq<StackedWindow>, self_pid: u32) -> Set<(int, int)> {
    Set::new(
        |p: (int, int)|
            exists|i: int|
                0 <= i < above.len() && (#[trigger] above[i]).occludes(self_pid)
                    && above[i].rect->0.holds(p.0, p.1),
    )
}

/// The pixels of the target that can be seen.
pub open spec fn seen(target: TargetWindow, above: Seq<StackedWindow>, self_pid: u32) -> Set<
    (int, int),
> {
    match target.on_screen() {
        Some(bounds) => bounds.pixels().difference(occluded(above, self_pid)),
        None => Set::empty(),
    }
}

/// The measurement stays within 32-bit coordinates.
pub open spec fn in_range(target: TargetWindow, above: Seq<StackedWindow>, self_pid: u32) -> bool {
    &&& target.shown() ==> target.clip().measurable()
    &&& target.on_screen() is Some ==> forall|i: int|
        0 <= i < above.len() && (#[trigger] above[i]).occludes(self_pid)
            ==> above[i].rect->0.overlap(target.clip()).measurable()
}

fn counts(w: &StackedWindow, self_pid: u32) -> (r: bool)
    ensures
        r == w.occludes(self_pid),
{
    w.visible && !w.iconic && w.pid != self_pid && w.cloaked == 0 && w.rect.is_some()
}

fn clip_target(target: &TargetWindow) -> (r: Option<Rect>)
    ensures
        r == if target.shown() { Some(target.clip()) } else { None },
{
    if target.iconic || !target.visible {
        return None;
    }
    match target.rect {
        None => None,
        Some(rect) => match target.work_area {
            Some(area) => Some(intersect_rect(&rect, &area)),
            None => Some(intersect_rect(&rect, &rect)),
        },
    }
}

/// Whether `visibility_ratio` can measure these windows in 32-bit coordinates.
pub fn is_in_range(target: &TargetWindow, above: &Vec<StackedWindow>, self_pid: u32) -> (r: bool)
    ensures
        r == in_range(*target, above@, self_pid),
{
    match clip_target(target) {
        None => true,
        Some(clip) => {
            if !clip.is_measurable() {
                return false;
            }
            if rect_area(&clip) <= 0 {
                proof {
                    crate::geometry::lemma_no_area_no_pixels(clip);
                }
                return true;
            }
            let n: usize = above.len();
            for k in 0..n
                invariant
                    n == above.len(),
                    target.on_screen() == Some(clip),
                    forall|i: int|
                        0 <= i < k && (#[trigger] above[i]).occludes(self_pid)
                            ==> above[i].rect->0.overlap(clip).measurable(),
            {
                if counts(&above[k], self_pid) {
                    if let Some(rect) = above[k].rect {
                        if !intersect_rect(&rect, &clip).is_measurable() {
                            return false;
                        }
                    }
                }
            }
            true
        },
    }
}

/// The rectangles of the sweep: non-empty pieces of `bounds` that share no
/// pixel.
spec fn tiling(pieces: Seq<Rect>, bounds: Rect) -> bool {
    &&& crate::geometry::disjoint(pieces)
    &&& forall|i: int| 0 <= i < pieces.len() ==> (#[trigger] pieces[i]).inside(bounds)
}

/// Cuts `hole` out of every piece.
fn sweep(pieces: &Vec<Rect>, hole: &Rect, Ghost(bounds): Ghost<Rect>) -> (next: Vec<Rect>)
    requires
        tiling(pieces@, bounds),
        hole.inside(bounds),
        bounds.measurable(),
        bounds.left < bounds.right,
        bounds.top < bounds.bottom,
    ensures
        tiling(next@, bounds),
        crate::geometry::covered(next@) =~= crate::geometry::covered(pieces@).difference(
            hole.pixels(),
        ),
{
    let mut next: Vec<Rect> = Vec::new();
    let n: usize = pieces.len();
    for k in 0..n
        invariant
            n == pieces.len(),
            tiling(pieces@, bounds),
            hole.inside(bounds),
            bounds.measurable(),
            bounds.left < bounds.right,
            bounds.top < bounds.bottom,
            tiling(next@, bounds),
            crate::geometry::covered(next@) =~= crate::geometry::covered(
                pieces@.take(k as int),
            ).difference(hole.pixels()),
    {
        let ghost before = next@;
        let ghost piece = pieces@[k as int];
        proof {
            lemma_inner_overlap_measurable(piece, *hole, bounds);
        }
        subtract_rect(&pieces[k], hole, &mut next);
        proof {
            lemma_sweep_step(pieces@, k as int, *hole, bounds, before, next@);
        }
    }
    assert(pieces@.take(n as int) =~= pieces@);
    next
}

proof fn lemma_inner_overlap_measurable(a: Rect, b: Rect, bounds: Rect)
    requires
        a.inside(bounds),
        b.inside(bounds),
        bounds.measurable(),
        bounds.left < bounds.right,
        bounds.top < bounds.bottom,
    ensures
        a.overlap(b).measurable(),
{
    let cut = a.overlap(b);
    let w = crate::geometry::span(cut.left as int, cut.right as int);
    let h = crate::geometry::span(cut.top as int, cut.bottom as int);
    let bw = bounds.right - bounds.left;
    let bh = bounds.bottom - bounds.top;
    assert(w * h <= bw * bh) by (nonlinear_arith)
        requires
            0 <= w <= bw,
            0 <= h <= bh,
    ;
}

proof fn lemma_sweep_step(
    pieces: Seq<Rect>,
    k: int,
    hole: Rect,
    bounds: Rect,
    before: Seq<Rect>,
    after: Seq<Rect>,
)
    requires
        tiling(pieces, bounds),
        hole.inside(bounds),
        0 <= k < pieces.len(),
        tiling(before, bounds),
        crate::geometry::covered(before) =~= crate::geometry::covered(pieces.take(k)).difference(
            hole.pixels(),
        ),
        after == before + crate::geometry::remainder(pieces[k], hole),
    ensures
        tiling(after, bounds),
        crate::geometry::covered(after) =~= crate::geometry::covered(pieces.take(k + 1)).difference(
            hole.pixels(),
        ),
{
    let piece = pieces[k];
    let rest = crate::geometry::remainder(piece, hole);
    crate::geometry::law_remainder_is_difference(piece, hole);
    crate::geometry::lemma_no_area_no_pixels(piece.overlap(hole));
    assert forall|i: int| 0 <= i < after.len() implies (#[trigger] after[i]).inside(bounds) by {
        if i < before.len() {
            assert(after[i] == before[i]);
        } else {
            assert(after[i] == rest[i - before.len()]);
        }
    }
    assert forall|i: int, j: int, x: int, y: int|
        0 <= i < j < after.len() && #[trigger] after[i].holds(x, y) implies !#[trigger] after[j].holds(
        x,
        y,
    ) by {
        if j < before.len() {
            assert(before[i].holds(x, y) && after[j] == before[j]);
        } else if i >= before.len() {
            assert(rest[i - before.len()].holds(x, y) && after[j] == rest[j - before.len()]);
        } else {
            assert(before[i].holds(x, y));
            assert(crate::geometry::covered(before).contains((x, y)));
            assert(crate::geometry::covered(pieces.take(k)).contains((x, y)));
            let m = choose|m: int|
                0 <= m < pieces.take(k).len() && (#[trigger] pieces.take(k)[m]).holds(x, y);
            assert(pieces[m].holds(x, y));
            assert(!pieces[k].holds(x, y));
            if after[j].holds(x, y) {
                assert(rest[j - before.len()].holds(x, y));
                assert(crate::geometry::covered(rest).contains((x, y)));
            }
        }
    }
    let target = crate::geometry::covered(pieces.take(k + 1)).difference(hole.pixels());
    assert forall|p: (int, int)| crate::geometry::covered(after).contains(p) == target.contains(p) by {
        if crate::geometry::covered(after).contains(p) {
            let i = choose|i: int| 0 <= i < after.len() && (#[trigger] after[i]).holds(p.0, p.1);
            if i < before.len() {
                assert(before[i].holds(p.0, p.1));
                assert(crate::geometry::covered(before).contains(p));
                let m = choose|m: int|
                    0 <= m < pieces.take(k).len() && (#[trigger] pieces.take(k)[m]).holds(p.0, p.1);
                assert(pieces.take(k + 1)[m].holds(p.0, p.1));
            } else {
                assert(rest[i - before.len()].holds(p.0, p.1));
                assert(crate::geometry::covered(rest).contains(p));
                assert(pieces.take(k + 1)[k].holds(p.0, p.1));
            }
        }
        if target.contains(p) {
            let m = choose|m: int|
                0 <= m < pieces.take(k + 1).len() && (#[trigger] pieces.take(k + 1)[m]).holds(p.0, p.1);
            if m < k {
                assert(pieces.take(k)[m].holds(p.0, p.1));
                assert(crate::geometry::covered(before).contains(p));
                let i = choose|i: int|
                    0 <= i < before.len() && (#[trigger] before[i]).holds(p.0, p.1);
                assert(after[i].holds(p.0, p.1));
            } else {
                assert(crate::geometry::covered(rest).contains(p));
                let i = choose|i: int|
                    0 <= i < rest.len() && (#[trigger] rest[i]).holds(p.0, p.1);
                assert(after[before.len() + i].holds(p.0, p.1));
            }
        }
    }
}

/// The parts of `bounds` under the first `n` windows that occlude it.
spec fn holes_match(
    holes: Seq<Rect>,
    above: Seq<StackedWindow>,
    n: int,
    self_pid: u32,
    bounds: Rect,
) -> bool {
    &&& forall|i: int| 0 <= i < holes.len() ==> (#[trigger] holes[i]).inside(bounds)
    &&& crate::geometry::covered(holes) =~= bounds.pixels().intersect(
        occluded(above.take(n), self_pid),
    )
}

proof fn lemma_holes_step(
    holes: Seq<Rect>,
    above: Seq<StackedWindow>,
    n: int,
    self_pid: u32,
    bounds: Rect,
    after: Seq<Rect>,
)
    requires
        0 <= n < above.len(),
        holes_match(holes, above, n, self_pid, bounds),
        above[n].occludes(self_pid) ==> {
            let shared = above[n].rect->0.overlap(bounds);
            after == if shared.area() > 0 {
                holes.push(shared)
            } else {
                holes
            }
        },
        !above[n].occludes(self_pid) ==> after == holes,
    ensures
        holes_match(after, above, n + 1, self_pid, bounds),
{
    let shared = above[n].rect->0.overlap(bounds);
    crate::geometry::lemma_no_area_no_pixels(shared);
    let under = bounds.pixels().intersect(occluded(above.take(n), self_pid));
    let under_next = bounds.pixels().intersect(occluded(above.take(n + 1), self_pid));
    assert forall|p: (int, int)| crate::geometry::covered(after).contains(p) implies under_next.contains(
        p,
    ) by {
        let i = choose|i: int| 0 <= i < after.len() && (#[trigger] after[i]).holds(p.0, p.1);
        if i < holes.len() {
            assert(holes[i].holds(p.0, p.1));
            assert(crate::geometry::covered(holes).contains(p));
            assert(under.contains(p));
            let m = choose|m: int|
                0 <= m < above.take(n).len() && (#[trigger] above.take(n)[m]).occludes(self_pid)
                    && above.take(n)[m].rect->0.holds(p.0, p.1);
            assert(above.take(n + 1)[m].occludes(self_pid));
        } else {
            assert(after[i] == shared);
            assert(above.take(n + 1)[n].occludes(self_pid));
        }
    }
    assert forall|p: (int, int)| under_next.contains(p) implies crate::geometry::covered(after).contains(
        p,
    ) by {
        let m = choose|m: int|
            0 <= m < above.take(n + 1).len() && (#[trigger] above.take(n + 1)[m]).occludes(self_pid)
                && above.take(n + 1)[m].rect->0.holds(p.0, p.1);
        if m < n {
            assert(above.take(n)[m].occludes(self_pid));
            assert(under.contains(p));
            assert(crate::geometry::covered(holes).contains(p));
            let i = choose|i: int| 0 <= i < holes.len() && (#[trigger] holes[i]).holds(p.0, p.1);
            assert(after[i].holds(p.0, p.1));
        } else {
            assert(shared.holds(p.0, p.1));
            assert(after[after.len() - 1].holds(p.0, p.1));
        }
    }
}

/// The overlaps with `bounds` of the windows that occlude it.
fn collect_holes(above: &Vec<StackedWindow>, self_pid: u32, bounds: &Rect) -> (holes: Vec<Rect>)
    requires
        forall|i: int|
            0 <= i < above.len() && (#[trigger] above[i]).occludes(self_pid)
                ==> above[i].rect->0.overlap(*bounds).measurable(),
    ensures
        holes_match(holes@, above@, above.len() as int, self_pid, *bounds),
{
    let mut holes: Vec<Rect> = Vec::new();
    let n: usize = above.len();
    for k in 0..n
        invariant
            n == above.len(),
            forall|i: int|
                0 <= i < above.len() && (#[trigger] above[i]).occludes(self_pid)
                    ==> above[i].rect->0.overlap(*bounds).measurable(),
            holes_match(holes@, above@, k as int, self_pid, *bounds),
    {
        let ghost before = holes@;
        if counts(&above[k], self_pid) {
            if let Some(rect) = above[k].rect {
                let shared = intersect_rect(&rect, bounds);
                if rect_area(&shared) > 0 {
                    holes.push(shared);
                }
            }
        }
        proof {
            lemma_holes_step(before, above@, k as int, self_pid, *bounds, holes@);
        }
    }
    holes
}

/// Adds up the areas of the pieces of a tiling.
fn sum_areas(pieces: &Vec<Rect>, Ghost(bounds): Ghost<Rect>) -> (sum: i64)
    requires
        tiling(pieces@, bounds),
        bounds.measurable(),
        bounds.left < bounds.right,
        bounds.top < bounds.bottom,
        crate::geometry::covered(pieces@).subset_of(bounds.pixels()),
    ensures
        sum == crate::geometry::covered(pieces@).len(),
{
    let mut sum: i64 = 0;
    let n: usize = pieces.len();
    for k in 0..n
        invariant
            n == pieces.len(),
            tiling(pieces@, bounds),
            bounds.measurable(),
            bounds.left < bounds.right,
            bounds.top < bounds.bottom,
            crate::geometry::covered(pieces@).subset_of(bounds.pixels()),
            sum == crate::geometry::total_area(pieces@.take(k as int)),
            0 <= sum <= i32::MAX,
    {
        let ghost upto = pieces@.take(k as int + 1);
        proof {
            let piece = pieces@[k as int];
            lemma_inner_overlap_measurable(piece, piece, bounds);
            assert(piece.overlap(piece) == piece);
            assert(upto.drop_last() =~= pieces@.take(k as int));
            lemma_front_area_bounded(pieces@, k as int + 1, bounds);
        }
        sum = sum + rect_area(&pieces[k]) as i64;
    }
    proof {
        assert(pieces@.take(n as int) =~= pieces@);
        crate::geometry::law_disjoint_areas_add_up(pieces@);
    }
    sum
}

proof fn lemma_front_area_bounded(pieces: Seq<Rect>, n: int, bounds: Rect)
    requires
        tiling(pieces, bounds),
        bounds.measurable(),
        crate::geometry::covered(pieces).subset_of(bounds.pixels()),
        0 <= n <= pieces.len(),
    ensures
        0 <= crate::geometry::total_area(pieces.take(n)) <= i32::MAX,
{
    let front = pieces.take(n);
    assert(crate::geometry::disjoint(front)) by {
        assert forall|i: int, j: int, x: int, y: int|
            0 <= i < j < front.len() && #[trigger] front[i].holds(x, y) implies !#[trigger] front[j].holds(
            x,
            y,
        ) by {
            assert(pieces[i].holds(x, y) && front[j] == pieces[j]);
        }
    }
    crate::geometry::law_disjoint_areas_add_up(front);
    crate::geometry::lemma_area_counts_pixels(bounds);
    assert(crate::geometry::covered(front).subset_of(bounds.pixels())) by {
        assert forall|p: (int, int)| crate::geometry::covered(front).contains(
            p,
        ) implies bounds.pixels().contains(p) by {
            let i = choose|i: int| 0 <= i < front.len() && (#[trigger] front[i]).holds(p.0, p.1);
            assert(pieces[i].holds(p.0, p.1));
            assert(crate::geometry::covered(pieces).contains(p));
        }
    }
    vstd::set_lib::lemma_len_subset(crate::geometry::covered(front), bounds.pixels());
}

/// The share of the target's on-screen pixels that can be seen past the
/// windows above it. A minimized or hidden target, or one without pixels on
/// screen, has a share of zero out of zero. Windows of process `self_pid` and
/// windows that are not painted hide nothing.
pub fn visibility_ratio(target: &TargetWindow, above: &Vec<StackedWindow>, self_pid: u32) -> (share:
    VisibleShare)
    requires
        in_range(*target, above@, self_pid),
    ensures
        seen(*target, above@, self_pid).finite(),
        share.visible == seen(*target, above@, self_pid).len(),
        share.total == match target.on_screen() {
            Some(bounds) => bounds.area(),
            None => 0,
        },
        0 <= share.visible <= share.total,
{
    let bounds = match clip_target(target) {
        None => {
            return VisibleShare { visible: 0, total: 0 };
        },
        Some(clip) => clip,
    };
    let total: i32 = rect_area(&bounds);
    if total <= 0 {
        return VisibleShare { visible: 0, total: 0 };
    }
    let holes = collect_holes(above, self_pid, &bounds);
    proof {
        crate::geometry::lemma_no_area_no_pixels(bounds);
        assert(above@.take(above.len() as int) =~= above@);
    }
    let mut pieces: Vec<Rect> = Vec::new();
    pieces.push(bounds);
    proof {
        assert(pieces@[0].holds(bounds.left as int, bounds.top as int));
        assert(crate::geometry::covered(pieces@) =~= bounds.pixels()) by {
            assert forall|p: (int, int)| bounds.pixels().contains(
                p,
            ) implies crate::geometry::covered(pieces@).contains(p) by {
                assert(pieces@[0].holds(p.0, p.1));
            }
        }
        assert(crate::geometry::covered(holes@.take(0)) =~= Set::empty());
    }
    let n: usize = holes.len();
    for k in 0..n
        invariant
            n == holes.len(),
            bounds.measurable(),
            bounds.left < bounds.right,
            bounds.top < bounds.bottom,
            forall|i: int| 0 <= i < holes.len() ==> (#[trigger] holes@[i]).inside(bounds),
            tiling(pieces@, bounds),
            crate::geometry::covered(pieces@) =~= bounds.pixels().difference(
                crate::geometry::covered(holes@.take(k as int)),
            ),
    {
        let next = sweep(&pieces, &holes[k], Ghost(bounds));
        proof {
            lemma_covered_push(holes@, k as int);
        }
        pieces = next;
    }
    proof {
        assert(holes@.take(n as int) =~= holes@);
        assert(crate::geometry::covered(pieces@) =~= seen(*target, above@, self_pid));
        crate::geometry::lemma_area_counts_pixels(bounds);
        vstd::set_lib::lemma_len_subset(crate::geometry::covered(pieces@), bounds.pixels());
    }
    let visible: i64 = sum_areas(&pieces, Ghost(bounds));
    VisibleShare { visible, total }
}

proof fn lemma_covered_push(rects: Seq<Rect>, k: int)
    requires
        0 <= k < rects.len(),
    ensures
        crate::geometry::covered(rects.take(k + 1)) =~= crate::geometry::covered(rects.take(k)).union(
            rects[k].pixels(),
        ),
{
    let both = crate::geometry::covered(rects.take(k)).union(rects[k].pixels());
    assert forall|p: (int, int)| crate::geometry::covered(rects.take(k + 1)).contains(p) == both.contains(
        p,
    ) by {
        if crate::geometry::covered(rects.take(k + 1)).contains(p) {
            let i = choose|i: int|
                0 <= i < rects.take(k + 1).len() && (#[trigger] rects.take(k + 1)[i]).holds(p.0, p.1);
            if i < k {
                assert(rects.take(k)[i].holds(p.0, p.1));
            }
        }
        if both.contains(p) {
            if rects[k].pixels().contains(p) {
                assert(rects.take(k + 1)[k].holds(p.0, p.1));
            } else {
                let i = choose|i: int|
                    0 <= i < rects.take(k).len() && (#[trigger] rects.take(k)[i]).holds(p.0, p.1);
                assert(rects.take(k + 1)[i].holds(p.0, p.1));
            }
        }
    }
}

/// A target that no occluding window overlaps is fully visible.
pub proof fn law_unoccluded_is_fully_visible(
    target: TargetWindow,
    above: Seq<StackedWindow>,
    self_pid: u32,
)
    requires
        target.on_screen() is Some,
        target.on_screen()->0.pixels().disjoint(occluded(above, self_pid)),
    ensures
        seen(target, above, self_pid).len() == target.on_screen()->0.area(),
{
    let bounds = target.on_screen()->0;
    crate::geometry::lemma_area_counts_pixels(bounds);
    assert(seen(target, above, self_pid) =~= bounds.pixels());
}

/// A target shows nothing exactly when each of its pixels lies under an
/// occluding window.
pub proof fn law_covered_is_invisible(
    target: TargetWindow,
    above: Seq<StackedWindow>,
    self_pid: u32,
)
    requires
        target.on_screen() is Some,
    ensures
        seen(target, above, self_pid).len() == 0 <==> target.on_screen()->0.pixels().subset_of(
            occluded(above, self_pid),
        ),
{
    let bounds = target.on_screen()->0;
    let shown = seen(target, above, self_pid);
    crate::geometry::lemma_area_counts_pixels(bounds);
    if shown.len() == 0 {
        assert forall|p: (int, int)| bounds.pixels().contains(p) implies occluded(
            above,
            self_pid,
        ).contains(p) by {
            assert(shown.contains(p) ==> shown.remove(p).len() < shown.len());
        }
    } else if bounds.pixels().subset_of(occluded(above, self_pid)) {
        assert(shown =~= Set::empty());
    }
}

/// Windows that are hidden, minimized, cloaked or of unknown bounds, and
/// windows of the viewer's own process, hide nothing: with one of them taken
/// out of the stack the same pixels are seen.
pub proof fn law_non_occluders_hide_nothing(
    target: TargetWindow,
    above: Seq<StackedWindow>,
    self_pid: u32,
    i: int,
)
    requires
        0 <= i < above.len(),
        !above[i].visible || above[i].iconic || above[i].cloaked != 0 || above[i].rect is None
            || above[i].pid == self_pid,
    ensures
        seen(target, above.remove(i), self_pid) =~= seen(target, above, self_pid),
{
    lemma_remove_non_occluder(above, self_pid, i);
}

proof fn lemma_remove_non_occluder(above: Seq<StackedWindow>, self_pid: u32, i: int)
    requires
        0 <= i < above.len(),
        !above[i].occludes(self_pid),
    ensures
        occluded(above.remove(i), self_pid) =~= occluded(above, self_pid),
{
    let fewer = above.remove(i);
    assert forall|p: (int, int)| occluded(fewer, self_pid).contains(p) == occluded(
        above,
        self_pid,
    ).contains(p) by {
        if occluded(fewer, self_pid).contains(p) {
            let m = choose|m: int|
                0 <= m < fewer.len() && (#[trigger] fewer[m]).occludes(self_pid)
                    && fewer[m].rect->0.holds(p.0, p.1);
            let at = if m < i { m } else { m + 1 };
            assert(above[at].occludes(self_pid));
        }
        if occluded(above, self_pid).contains(p) {
            let m = choose|m: int|
                0 <= m < above.len() && (#[trigger] above[m]).occludes(self_pid)
                    && above[m].rect->0.holds(p.0, p.1);
            let at = if m < i { m } else { m - 1 };
            assert(fewer[at].occludes(self_pid));
        }
    }
}

/// One more window above never shows more of the target.
pub proof fn law_more_windows_show_less(
    target: TargetWindow,
    above: Seq<StackedWindow>,
    extra: StackedWindow,
    self_pid: u32,
)
    ensures
        seen(target, above.push(extra), self_pid).subset_of(seen(target, above, self_pid)),
        seen(target, above.push(extra), self_pid).len() <= seen(target, above, self_pid).len(),
{
    let more = above.push(extra);
    assert forall|p: (int, int)| occluded(above, self_pid).contains(p) implies occluded(
        more,
        self_pid,
    ).contains(p) by {
        let m = choose|m: int|
            0 <= m < above.len() && (#[trigger] above[m]).occludes(self_pid)
                && above[m].rect->0.holds(p.0, p.1);
        assert(more[m].occludes(self_pid));
    }
    match target.on_screen() {
        Some(bounds) => {
            crate::geometry::lemma_area_counts_pixels(bounds);
            vstd::set_lib::lemma_len_subset(
                seen(target, more, self_pid),
                seen(target, above, self_pid),
            );
        },
        None => {},
    }
}

/// The on-screen part of a target that is shown: its bounds hold exactly the
/// pixels that both the target and the work area hold, or all pixels of the
/// target where the work area is unknown. There are no such bounds exactly when
/// there are no such pixels, and their area is the number of these.
pub proof fn law_on_screen_is_clipped_to_the_work_area(target: TargetWindow)
    requires
        !target.iconic,
        target.visible,
        target.rect is Some,
    ensures
        ({
            let pixels = match target.work_area {
                Some(area) => target.rect->0.pixels().intersect(area.pixels()),
                None => target.rect->0.pixels(),
            };
            &&& pixels.finite()
            &&& match target.on_screen() {
                Some(bounds) => bounds.pixels() =~= pixels && bounds.area() == pixels.len()
                    && pixels.len() > 0,
                None => pixels =~= Set::empty(),
            }
        }),
{
    let rect = target.rect->0;
    let clip = target.clip();
    crate::geometry::lemma_area_counts_pixels(clip);
    crate::geometry::lemma_no_area_no_pixels(clip);
    match target.work_area {
        Some(area) => {
            assert(clip.pixels() =~= rect.pixels().intersect(area.pixels()));
        },
        None => {
            assert(clip.pixels() =~= rect.pixels());
        },
    }
    if clip.area() == 0 {
        assert(clip.pixels() =~= Set::empty());
    }
}

/// Nothing is on screen of a target that is minimized, hidden or of unknown
/// bounds, nothing of it is seen, and there is nothing to measure.
pub proof fn law_hidden_target_shows_nothing(
    target: TargetWindow,
    above: Seq<StackedWindow>,
    self_pid: u32,
)
    requires
        target.iconic || !target.visible || target.rect is None,
    ensures
        target.on_screen() is None,
        seen(target, above, self_pid) =~= Set::empty(),
        in_range(target, above, self_pid),
{
}

/// A pixel of the target is seen exactly when the target is shown and holds
/// it, the work area holds it where that is known, and no window above holds it
/// that is visible, not minimized, not cloaked and of another process.
pub proof fn law_seen_pixels(
    target: TargetWindow,
    above: Seq<StackedWindow>,
    self_pid: u32,
    x: int,
    y: int,
)
    ensures
        seen(target, above, self_pid).contains((x, y)) <==> {
            &&& !target.iconic
            &&& target.visible
            &&& target.rect matches Some(r) && r.left <= x < r.right && r.top <= y < r.bottom
            &&& target.work_area matches Some(r) ==> r.left <= x < r.right && r.top <= y < r.bottom
            &&& forall|i: int|
                0 <= i < above.len() ==> !((#[trigger] above[i]).visible && !above[i].iconic
                    && above[i].pid != self_pid && above[i].cloaked == 0 && above[i].rect is Some
                    && above[i].rect->0.left <= x < above[i].rect->0.right && above[i].rect->0.top <= y
                    < above[i].rect->0.bottom)
        },
{
    if !target.iconic && target.visible && target.rect is Some {
        let clip = target.clip();
        crate::geometry::lemma_no_area_no_pixels(clip);
        assert(occluded(above, self_pid).contains((x, y)) <==> exists|i: int|
            0 <= i < above.len() && (#[trigger] above[i]).visible && !above[i].iconic && above[i].pid
                != self_pid && above[i].cloaked == 0 && above[i].rect is Some && above[i].rect->0.left
                <= x < above[i].rect->0.right && above[i].rect->0.top <= y
                < above[i].rect->0.bottom) by {
            if occluded(above, self_pid).contains((x, y)) {
                let i = choose|i: int|
                    0 <= i < above.len() && (#[trigger] above[i]).occludes(self_pid)
                        && above[i].rect->0.holds(x, y);
                assert(above[i].visible);
            }
            if exists|i: int|
                0 <= i < above.len() && (#[trigger] above[i]).visible && !above[i].iconic && above[i].pid
                    != self_pid && above[i].cloaked == 0 && above[i].rect is Some
                    && above[i].rect->0.left <= x < above[i].rect->0.right && above[i].rect->0.top <= y
                    < above[i].rect->0.bottom {
                let i = choose|i: int|
                    0 <= i < above.len() && (#[trigger] above[i]).visible && !above[i].iconic
                        && above[i].pid != self_pid && above[i].cloaked == 0 && above[i].rect is Some
                        && above[i].rect->0.left <= x < above[i].rect->0.right
                        && above[i].rect->0.top <= y < above[i].rect->0.bottom;
                assert(above[i].occludes(self_pid) && above[i].rect->0.holds(x, y));
            }
        }
        if target.on_screen() is Some {
            assert(seen(target, above, self_pid).contains((x, y)) <==> clip.holds(x, y)
                && !occluded(above, self_pid).contains((x, y)));
        }
    }
}

/// Windows whose coordinates stay within sixteen thousand pixels of the origin
/// can always be measured, however they are stacked.
pub proof fn law_ordinary_desktops_are_in_range(
    target: TargetWindow,
    above: Seq<StackedWindow>,
    self_pid: u32,
)
    requires
        target.rect matches Some(r) ==> -16000 <= r.left <= 16000 && -16000 <= r.top <= 16000
            && -16000 <= r.right <= 16000 && -16000 <= r.bottom <= 16000,
        target.work_area matches Some(r) ==> -16000 <= r.left <= 16000 && -16000 <= r.top <= 16000
            && -16000 <= r.right <= 16000 && -16000 <= r.bottom <= 16000,
        forall|i: int|
            0 <= i < above.len() ==> ((#[trigger] above[i]).rect matches Some(r) ==> -16000 <= r.left
                <= 16000 && -16000 <= r.top <= 16000 && -16000 <= r.right <= 16000 && -16000 <= r.bottom
                <= 16000),
    ensures
        in_range(target, above, self_pid),
{
    if target.rect is Some {
        lemma_small_is_measurable(target.clip());
        assert forall|i: int|
            0 <= i < above.len() && (#[trigger] above[i]).occludes(
                self_pid,
            ) implies above[i].rect->0.overlap(target.clip()).measurable() by {
            lemma_small_is_measurable(above[i].rect->0.overlap(target.clip()));
        }
    }
}

proof fn lemma_small_is_measurable(r: Rect)
    requires
        -16000 <= r.left <= 16000,
        -16000 <= r.top <= 16000,
        -16000 <= r.right <= 16000,
        -16000 <= r.bottom <= 16000,
    ensures
        r.measurable(),
{
    let w = crate::geometry::span(r.left as int, r.right as int);
    let h = crate::geometry::span(r.top as int, r.bottom as int);
    assert(w * h <= 32000 * 32000) by (nonlinear_arith)
        requires
            0 <= w <= 32000,
            0 <= h <= 32000,
    ;
}

/// Measuring asks for no more than 32-bit sizes of the rectangles that are
/// measured: the target within the work area, where the target is shown, and
/// the part of that under each occluding window, where any pixel is on screen.
pub proof fn law_range_is_that_of_32_bits(
    target: TargetWindow,
    above: Seq<StackedWindow>,
    self_pid: u32,
)
    requires
        target.rect is Some,
        !target.iconic,
        target.visible,
    ensures
        ({
            let whole = target.rect->0;
            let area = match target.work_area {
                Some(area) => area,
                None => whole,
            };
            let clip = whole.overlap(area);
            in_range(target, above, self_pid) <==> clip.measurable() && (clip.pixels().len() > 0
                ==> forall|i: int|
                0 <= i < above.len() && (#[trigger] above[i]).visible && !above[i].iconic && above[i].pid
                    != self_pid && above[i].cloaked == 0 && above[i].rect is Some
                    ==> above[i].rect->0.overlap(clip).measurable())
        }),
{
    let whole = target.rect->0;
    let area = match target.work_area {
        Some(area) => area,
        None => whole,
    };
    let clip = whole.overlap(area);
    assert(clip == target.clip());
    crate::geometry::lemma_area_counts_pixels(clip);
    if in_range(target, above, self_pid) && clip.pixels().len() > 0 {
        assert forall|i: int|
            0 <= i < above.len() && (#[trigger] above[i]).visible && !above[i].iconic && above[i].pid
                != self_pid && above[i].cloaked == 0
                && above[i].rect is Some implies above[i].rect->0.overlap(clip).measurable() by {
            assert(above[i].occludes(self_pid));
        }
    }
}

} // verus!
