//! Half-open screen rectangles, their areas, and the subtraction of one
//! rectangle from another.
//!
//! A rectangle stands for the set of pixels it holds: `left` and `top` are
//! inside, `right` and `bottom` are one past the last column and row.

use vstd::prelude::*;

verus! {

/// A screen rectangle in pixels. It is empty when `right <= left` or
/// `bottom <= top`.
#[derive(Clone, Copy, Debug, PartialEq, Eq, Structural)]
pub struct Rect {
    pub left: i32,
    pub top: i32,
    pub right: i32,
    pub bottom: i32,
}

/// The number of integers in `lo..hi`.
pub open spec fn span(lo: int, hi: int) -> int {
    if lo < hi {
        hi - lo
    } else {
        0
    }
}

pub open spec fn larger(a: i32, b: i32) -> i32 {
    if a >= b {
        a
    } else {
        b
    }
}

pub open spec fn smaller(a: i32, b: i32) -> i32 {
    if a <= b {
        a
    } else {
        b
    }
}

impl Rect {
    /// Whether the pixel in column `x` and row `y` lies in the rectangle.
    pub open spec fn holds(self, x: int, y: int) -> bool {
        self.left <= x < self.right && self.top <= y < self.bottom
    }

    /// The pixels of the rectangle.
    pub open spec fn pixels(self) -> Set<(int, int)> {
        Set::new(|p: (int, int)| self.holds(p.0, p.1))
    }

    /// Width times height, zero for an empty rectangle.
    pub open spec fn area(self) -> int {
        span(self.left as int, self.right as int) * span(self.top as int, self.bottom as int)
    }

    /// The largest rectangle inside both.
    pub open spec fn overlap(self, other: Rect) -> Rect {
        Rect {
            left: larger(self.left, other.left),
            top: larger(self.top, other.top),
            right: smaller(self.right, other.right),
            bottom: smaller(self.bottom, other.bottom),
        }
    }

    /// Width, height and area can be computed in 32-bit arithmetic.
    pub open spec fn measurable(self) -> bool {
        &&& i32::MIN <= self.right - self.left <= i32::MAX
        &&& i32::MIN <= self.bottom - self.top <= i32::MAX
        &&& self.area() <= i32::MAX
    }

    /// Every pixel of the rectangle is a pixel of `outer`.
    pub open spec fn inside(self, outer: Rect) -> bool {
        &&& outer.left <= self.left <= self.right <= outer.right
        &&& outer.top <= self.top <= self.bottom <= outer.bottom
    }
}

/// The pixels held by at least one of the rectangles.
pub open spec fn covered(rects: Seq<Rect>) -> Set<(int, int)> {
    Set::new(|p: (int, int)| exists|i: int| 0 <= i < rects.len() && (#[trigger] rects[i]).holds(p.0, p.1))
}

/// No pixel is held by two of the rectangles.
pub open spec fn disjoint(rects: Seq<Rect>) -> bool {
    forall|i: int, j: int, x: int, y: int|
        0 <= i < j < rects.len() && #[trigger] rects[i].holds(x, y) ==> !#[trigger] rects[j].holds(x, y)
}

/// The sum of the areas of the rectangles.
pub open spec fn total_area(rects: Seq<Rect>) -> int
    decreases rects.len(),
{
    if rects.len() == 0 {
        0
    } else {
        total_area(rects.drop_last()) + rects.last().area()
    }
}

/// What is left of `a` once `b` is cut out of it: `a` itself when the two
/// share no pixel, else the strips above, below, left and right of the shared
/// part, in this order. Empty pieces are left out, so nothing is left of an
/// empty `a`.
pub open spec fn remainder(a: Rect, b: Rect) -> Seq<Rect> {
    let cut = a.overlap(b);
    if cut.area() == 0 {
        if a.left < a.right && a.top < a.bottom {
            seq![a]
        } else {
            seq![]
        }
    } else {
        let above = if a.top < cut.top {
            seq![Rect { left: a.left, top: a.top, right: a.right, bottom: cut.top }]
        } else {
            seq![]
        };
        let below = if cut.bottom < a.bottom {
            seq![Rect { left: a.left, top: cut.bottom, right: a.right, bottom: a.bottom }]
        } else {
            seq![]
        };
        let left = if a.left < cut.left {
            seq![Rect { left: a.left, top: cut.top, right: cut.left, bottom: cut.bottom }]
        } else {
            seq![]
        };
        let right = if cut.right < a.right {
            seq![Rect { left: cut.right, top: cut.top, right: a.right, bottom: cut.bottom }]
        } else {
            seq![]
        };
        above + below + left + right
    }
}

/// The common part of two rectangles. It holds exactly the pixels that both
/// hold; when they share none the result is an empty rectangle.
pub fn intersect_rect(a: &Rect, b: &Rect) -> (r: Rect)
    ensures
        r == a.overlap(*b),
        r.pixels() =~= a.pixels().intersect(b.pixels()),
{
    Rect {
        left: if a.left >= b.left { a.left } else { b.left },
        top: if a.top >= b.top { a.top } else { b.top },
        right: if a.right <= b.right { a.right } else { b.right },
        bottom: if a.bottom <= b.bottom { a.bottom } else { b.bottom },
    }
}

/// The number of pixels in a rectangle.
pub fn rect_area(r: &Rect) -> (area: i32)
    requires
        r.measurable(),
    ensures
        area == r.area(),
        r.pixels().finite(),
        area == r.pixels().len(),
{
    proof {
        lemma_area_counts_pixels(*r);
        let w = span(r.left as int, r.right as int);
        let h = span(r.top as int, r.bottom as int);
        assert(0 <= w * h) by (nonlinear_arith)
            requires
                0 <= w,
                0 <= h,
        ;
    }
    let across: i32 = r.right - r.left;
    let down: i32 = r.bottom - r.top;
    let w: i32 = if across >= 0 { across } else { 0 };
    let h: i32 = if down >= 0 { down } else { 0 };
    w * h
}

impl Rect {
    /// Whether the width, height and area of the rectangle can be computed in
    /// 32-bit arithmetic, as `rect_area` does.
    pub fn is_measurable(&self) -> (fits: bool)
        ensures
            fits == self.measurable(),
    {
        let across: i64 = self.right as i64 - self.left as i64;
        let down: i64 = self.bottom as i64 - self.top as i64;
        if across < i32::MIN as i64 || across > i32::MAX as i64 || down < i32::MIN as i64 || down
            > i32::MAX as i64 {
            return false;
        }
        let w: i64 = if across >= 0 { across } else { 0 };
        let h: i64 = if down >= 0 { down } else { 0 };
        assert(0 <= w * h <= 0x7fff_ffff * 0x7fff_ffff) by (nonlinear_arith)
            requires
                0 <= w <= 0x7fff_ffff,
                0 <= h <= 0x7fff_ffff,
        ;
        w * h <= i32::MAX as i64
    }
}

/// Appends to `out` what is left of `a` once `b` is cut out of it, without
/// empty pieces.
pub fn subtract_rect(a: &Rect, b: &Rect, out: &mut Vec<Rect>)
    requires
        a.overlap(*b).measurable(),
    ensures
        final(out)@ == old(out)@ + remainder(*a, *b),
{
    let cut = intersect_rect(a, b);
    if rect_area(&cut) == 0 {
        if a.left < a.right && a.top < a.bottom {
            out.push(*a);
        }
        return;
    }
    if a.top < cut.top {
        out.push(Rect { left: a.left, top: a.top, right: a.right, bottom: cut.top });
    }
    if cut.bottom < a.bottom {
        out.push(Rect { left: a.left, top: cut.bottom, right: a.right, bottom: a.bottom });
    }
    if a.left < cut.left {
        out.push(Rect { left: a.left, top: cut.top, right: cut.left, bottom: cut.bottom });
    }
    if cut.right < a.right {
        out.push(Rect { left: cut.right, top: cut.top, right: a.right, bottom: cut.bottom });
    }
}

proof fn lemma_column_len(x: int, top: int, bottom: int)
    ensures
        Set::new(|p: (int, int)| p.0 == x && top <= p.1 < bottom).finite(),
        Set::new(|p: (int, int)| p.0 == x && top <= p.1 < bottom).len() == span(top, bottom),
{
    let column = Set::new(|p: (int, int)| p.0 == x && top <= p.1 < bottom);
    if top < bottom {
        let rows = vstd::set_lib::set_int_range(top, bottom);
        let place = |y: int| (x, y);
        vstd::set_lib::lemma_int_range(top, bottom);
        assert(column =~= rows.map(place)) by {
            assert forall|p: (int, int)| column.contains(p) implies rows.map(place).contains(p) by {
                assert(rows.contains(p.1) && place(p.1) == p);
            }
        }
        rows.lemma_map_finite(place);
        vstd::set_lib::lemma_map_size(rows, column, place);
    } else {
        assert(column =~= Set::empty());
    }
}

proof fn lemma_block_len(left: int, right: int, top: int, bottom: int)
    ensures
        Set::new(|p: (int, int)| left <= p.0 < right && top <= p.1 < bottom).finite(),
        Set::new(|p: (int, int)| left <= p.0 < right && top <= p.1 < bottom).len() == span(
            left,
            right,
        ) * span(top, bottom),
    decreases span(left, right),
{
    let block = Set::new(|p: (int, int)| left <= p.0 < right && top <= p.1 < bottom);
    if left < right {
        let narrower = Set::new(|p: (int, int)| left <= p.0 < right - 1 && top <= p.1 < bottom);
        let column = Set::new(|p: (int, int)| p.0 == right - 1 && top <= p.1 < bottom);
        lemma_block_len(left, right - 1, top, bottom);
        lemma_column_len(right - 1, top, bottom);
        assert(block =~= narrower + column);
        assert(narrower.disjoint(column));
        vstd::set_lib::lemma_set_disjoint_lens(narrower, column);
        let h = span(top, bottom);
        assert((right - left) * h == (right - 1 - left) * h + h) by (nonlinear_arith);
        assert(span(left, right - 1) == right - 1 - left);
    } else {
        assert(block =~= Set::empty());
        assert(0 * span(top, bottom) == 0) by (nonlinear_arith);
    }
}

/// The area of a rectangle is the number of its pixels.
pub proof fn lemma_area_counts_pixels(r: Rect)
    ensures
        r.pixels().finite(),
        r.pixels().len() == r.area(),
{
    lemma_block_len(r.left as int, r.right as int, r.top as int, r.bottom as int);
    assert(r.pixels() =~= Set::new(
        |p: (int, int)| r.left <= p.0 < r.right && r.top <= p.1 < r.bottom,
    ));
}

/// A rectangle has area zero exactly when it holds no pixel.
pub proof fn lemma_no_area_no_pixels(r: Rect)
    ensures
        0 <= r.area(),
        r.area() == 0 <==> (r.right <= r.left || r.bottom <= r.top),
{
    let w = span(r.left as int, r.right as int);
    let h = span(r.top as int, r.bottom as int);
    assert(0 <= w * h && (w * h == 0 <==> (w == 0 || h == 0))) by (nonlinear_arith)
        requires
            0 <= w,
            0 <= h,
    ;
}

/// Cutting `b` out of `a` leaves rectangles that share no pixel and that
/// together hold exactly the pixels of `a` that `b` does not hold. None of
/// them is empty.
pub proof fn law_remainder_is_difference(a: Rect, b: Rect)
    ensures
        forall|i: int| 0 <= i < remainder(a, b).len() ==> (#[trigger] remainder(a, b)[i]).area() > 0,
        disjoint(remainder(a, b)),
        covered(remainder(a, b)) =~= a.pixels().difference(b.pixels()),
{
    let cut = a.overlap(b);
    lemma_no_area_no_pixels(cut);
    let rest = remainder(a, b);
    assert forall|i: int| 0 <= i < rest.len() implies (#[trigger] rest[i]).area() > 0 by {
        lemma_no_area_no_pixels(rest[i]);
    }
    assert forall|x: int, y: int| a.holds(x, y) && !b.holds(x, y) implies covered(rest).contains(
        (x, y),
    ) by {
        if cut.area() == 0 {
            assert(rest[0].holds(x, y));
        } else {
            let above: int = if a.top < cut.top { 1 } else { 0 };
            let below: int = if cut.bottom < a.bottom { 1 } else { 0 };
            let left: int = if a.left < cut.left { 1 } else { 0 };
            if y < cut.top {
                assert(rest[0].holds(x, y));
            } else if cut.bottom <= y {
                assert(rest[above].holds(x, y));
            } else if x < cut.left {
                assert(rest[above + below].holds(x, y));
            } else {
                assert(rest[above + below + left].holds(x, y));
            }
        }
    }
}

/// The areas of rectangles that share no pixel add up to the number of
/// pixels that they cover.
pub proof fn law_disjoint_areas_add_up(rects: Seq<Rect>)
    requires
        disjoint(rects),
    ensures
        covered(rects).finite(),
        covered(rects).len() == total_area(rects),
    decreases rects.len(),
{
    if rects.len() == 0 {
        assert(covered(rects) =~= Set::empty());
    } else {
        let front = rects.drop_last();
        let last = rects.last();
        assert(disjoint(front)) by {
            assert forall|i: int, j: int, x: int, y: int|
                0 <= i < j < front.len() && #[trigger] front[i].holds(x, y) implies !#[trigger] front[j].holds(
                x,
                y,
            ) by {
                assert(rects[i].holds(x, y));
                assert(front[j] == rects[j]);
            }
        }
        law_disjoint_areas_add_up(front);
        lemma_area_counts_pixels(last);
        assert(covered(rects) =~= covered(front) + last.pixels()) by {
            assert forall|p: (int, int)| covered(rects).contains(p) implies (covered(front)
                + last.pixels()).contains(p) by {
                let i = choose|i: int|
                    0 <= i < rects.len() && (#[trigger] rects[i]).holds(p.0, p.1);
                if i < front.len() {
                    assert(front[i].holds(p.0, p.1));
                }
            }
            assert forall|p: (int, int)| (covered(front) + last.pixels()).contains(
                p,
            ) implies covered(rects).contains(p) by {
                if covered(front).contains(p) {
                    let i = choose|i: int|
                        0 <= i < front.len() && (#[trigger] front[i]).holds(p.0, p.1);
                    assert(rects[i].holds(p.0, p.1));
                } else {
                    assert(rects[rects.len() - 1].holds(p.0, p.1));
                }
            }
        }
        assert(covered(front).disjoint(last.pixels())) by {
            assert forall|p: (int, int)| covered(front).contains(p) implies !last.pixels().contains(
                p,
            ) by {
                let i = choose|i: int|
                    0 <= i < front.len() && (#[trigger] front[i]).holds(p.0, p.1);
                assert(rects[i].holds(p.0, p.1));
                assert(!rects[rects.len() - 1].holds(p.0, p.1));
            }
        }
        vstd::set_lib::lemma_set_disjoint_lens(covered(front), last.pixels());
    }
}

/// Two rectangles split each other's area: what is left of `a` without `b`,
/// and what `a` shares with `b`, make up the area of `a`.
pub proof fn law_areas_split(a: Rect, b: Rect)
    ensures
        total_area(remainder(a, b)) + a.overlap(b).area() == a.area(),
{
    law_remainder_is_difference(a, b);
    law_disjoint_areas_add_up(remainder(a, b));
    lemma_area_counts_pixels(a);
    lemma_area_counts_pixels(a.overlap(b));
    let rest = covered(remainder(a, b));
    let shared = a.overlap(b).pixels();
    assert(a.pixels() =~= rest + shared);
    assert(rest.disjoint(shared));
    vstd::set_lib::lemma_set_disjoint_lens(rest, shared);
}

/// A rectangle holds the pixels from its left and top edges up to, but not
/// including, its right and bottom edges.
pub proof fn law_pixels_lie_between_the_edges(r: Rect, x: int, y: int)
    ensures
        r.pixels().contains((x, y)) <==> r.left <= x && x < r.right && r.top <= y && y < r.bottom,
{
}

/// The overlap of two rectangles holds the pixels that both hold. Each of its
/// edges is an edge of one of the two, and lies no further out than that of
/// either.
pub proof fn law_overlap_is_the_common_part(a: Rect, b: Rect)
    ensures
        a.overlap(b).pixels() =~= a.pixels().intersect(b.pixels()),
        ({
            let r = a.overlap(b);
            &&& r.left >= a.left && r.left >= b.left && (r.left == a.left || r.left == b.left)
            &&& r.top >= a.top && r.top >= b.top && (r.top == a.top || r.top == b.top)
            &&& r.right <= a.right && r.right <= b.right && (r.right == a.right || r.right == b.right)
            &&& r.bottom <= a.bottom && r.bottom <= b.bottom && (r.bottom == a.bottom || r.bottom
                == b.bottom)
        }),
{
}

/// A rectangle is measurable exactly when its width, its height and the number
/// of its pixels are numbers of 32 bits.
pub proof fn law_measurable_fits_32_bits(r: Rect)
    ensures
        r.measurable() <==> {
            &&& -0x8000_0000 <= r.right - r.left <= 0x7fff_ffff
            &&& -0x8000_0000 <= r.bottom - r.top <= 0x7fff_ffff
            &&& r.pixels().len() <= 0x7fff_ffff
        },
{
    lemma_area_counts_pixels(r);
}

/// A rectangle that shares no pixel with the hole stays in one piece. Of one
/// that does, at most four strips are left: those above and below the shared
/// part over the whole width, then those to its left and right over its own
/// height, in this order and each only where it is not empty.
pub proof fn law_remainder_is_made_of_strips(a: Rect, b: Rect)
    requires
        a.left < a.right,
        a.top < a.bottom,
    ensures
        a.pixels().disjoint(b.pixels()) ==> remainder(a, b) =~= seq![a],
        !a.pixels().disjoint(b.pixels()) ==> {
            let c = a.overlap(b);
            let rest = remainder(a, b);
            let above = Rect { left: a.left, top: a.top, right: a.right, bottom: c.top };
            let below = Rect { left: a.left, top: c.bottom, right: a.right, bottom: a.bottom };
            let left = Rect { left: a.left, top: c.top, right: c.left, bottom: c.bottom };
            let right = Rect { left: c.right, top: c.top, right: a.right, bottom: c.bottom };
            &&& rest.contains(above) <==> a.top < c.top
            &&& rest.contains(below) <==> c.bottom < a.bottom
            &&& rest.contains(left) <==> a.left < c.left
            &&& rest.contains(right) <==> c.right < a.right
            &&& forall|i: int|
                0 <= i < rest.len() ==> (#[trigger] rest[i] == above && i == 0) || (rest[i] == below
                    && (i == 0 || (i == 1 && rest[0] == above))) || (rest[i] == left && (i == rest.len()
                    - 1 || (i == rest.len() - 2 && rest[i + 1] == right))) || (rest[i] == right && i
                    == rest.len() - 1)
        },
{
    let c = a.overlap(b);
    let rest = remainder(a, b);
    lemma_no_area_no_pixels(c);
    if c.area() == 0 {
        assert(a.pixels().disjoint(b.pixels()));
    } else {
        assert(a.pixels().contains((c.left as int, c.top as int)));
        assert(b.pixels().contains((c.left as int, c.top as int)));
        assert(!a.pixels().disjoint(b.pixels()));
        let above = Rect { left: a.left, top: a.top, right: a.right, bottom: c.top };
        let below = Rect { left: a.left, top: c.bottom, right: a.right, bottom: a.bottom };
        let left = Rect { left: a.left, top: c.top, right: c.left, bottom: c.bottom };
        let right = Rect { left: c.right, top: c.top, right: a.right, bottom: c.bottom };
        let n: int = if a.top < c.top { 1 } else { 0 };
        let m: int = if c.bottom < a.bottom { 1 } else { 0 };
        let k: int = if a.left < c.left { 1 } else { 0 };
        if a.top < c.top {
            assert(rest[0] == above);
        }
        if c.bottom < a.bottom {
            assert(rest[n] == below);
        }
        if a.left < c.left {
            assert(rest[n + m] == left);
        }
        if c.right < a.right {
            assert(rest[n + m + k] == right);
        }
    }
}

} // verus!
