//! Geometry snapshot: glyph boxes and the visual lines they form.
//!
//! Coordinates are integers. A box's center is kept in half units (twice
//! its coordinates), so that it stays exact for boxes of odd size.
use vstd::prelude::*;

verus! {

/// A point in half units: the point `(x / 2, y / 2)` of local coordinates.
#[derive(Clone, Copy, Debug, PartialEq, Eq, Structural)]
pub struct Point {
    pub x: i64,
    pub y: i64,
}

/// The bounding box of one glyph: its origin and its size.
#[derive(Clone, Copy, Debug, PartialEq, Eq, Structural)]
pub struct GlyphBox {
    pub x: i32,
    pub y: i32,
    pub width: i32,
    pub height: i32,
}

/// The glyphs `[glyph_start, glyph_end)` that form one visual line.
#[derive(Clone, Copy, Debug, PartialEq, Eq, Structural)]
pub struct LineSpan {
    pub glyph_start: usize,
    pub glyph_end: usize,
}

/// The center of a box, in half units.
pub open spec fn center_of(b: GlyphBox) -> Point {
    Point { x: (2 * b.x + b.width) as i64, y: (2 * b.y + b.height) as i64 }
}

/// The squared Euclidean distance between two points.
pub open spec fn dist_sq(a: Point, b: Point) -> int {
    (a.x - b.x) * (a.x - b.x) + (a.y - b.y) * (a.y - b.y)
}

/// The squared distance from the center of `b` to `p`.
pub open spec fn glyph_dist(b: GlyphBox, p: Point) -> int {
    dist_sq(center_of(b), p)
}

/// `r` is the glyph of `[start, end)` whose center lies closest to `p`, the
/// first one among those at the same distance.
pub open spec fn is_nearest(rects: Seq<GlyphBox>, p: Point, start: int, end: int, r: int) -> bool {
    &&& start <= r < end
    &&& forall|j: int| start <= j < end ==> glyph_dist(rects[r], p) <= #[trigger] glyph_dist(rects[j], p)
    &&& forall|j: int| start <= j < r ==> glyph_dist(rects[r], p) < #[trigger] glyph_dist(rects[j], p)
}

/// Whether `span` holds glyph `c`.
pub open spec fn span_contains(span: LineSpan, c: int) -> bool {
    span.glyph_start <= c < span.glyph_end
}

/// The lines partition the glyphs `[0, n)`: each span is ordered, each one
/// starts where the one before it ends, the first at 0 and the last ends at `n`.
pub open spec fn spans_cover(lines: Seq<LineSpan>, n: nat) -> bool {
    &&& lines.len() == 0 ==> n == 0
    &&& lines.len() > 0 ==> {
        &&& lines[0].glyph_start == 0
        &&& lines[lines.len() - 1].glyph_end == n
    }
    &&& forall|i: int| 0 <= i < lines.len() ==> #[trigger] lines[i].glyph_start <= lines[i].glyph_end
    &&& forall|i: int| 0 <= i < lines.len() - 1 ==> #[trigger] lines[i].glyph_end == lines[i + 1].glyph_start
}

/// The first line at or after `i` that holds glyph `c`, or `lines.len()`.
pub open spec fn line_index_from(lines: Seq<LineSpan>, c: int, i: int) -> int
    decreases lines.len() - i,
{
    if i < 0 || i >= lines.len() {
        lines.len() as int
    } else if span_contains(lines[i], c) {
        i
    } else {
        line_index_from(lines, c, i + 1)
    }
}

/// The first line that holds glyph `c`, or `lines.len()` where none does.
pub open spec fn line_index(lines: Seq<LineSpan>, c: int) -> int {
    line_index_from(lines, c, 0)
}

/// Where the lines partition the glyphs, the search from a line that starts
/// at or before glyph `c` ends on a line that holds `c`.
proof fn lemma_line_found_from(lines: Seq<LineSpan>, n: nat, c: int, i: int)
    requires
        spans_cover(lines, n),
        0 <= c < n,
        0 <= i < lines.len(),
        lines[i].glyph_start <= c,
    ensures
        0 <= line_index_from(lines, c, i) < lines.len(),
        span_contains(lines[line_index_from(lines, c, i)], c),
    decreases lines.len() - i,
{
    if !span_contains(lines[i], c) && i + 1 < lines.len() {
        lemma_line_found_from(lines, n, c, i + 1);
    }
}

/// Where the lines partition the glyphs `[0, n)`, every glyph `c` of them lies
/// on the line that the search for it returns.
pub proof fn lemma_line_index_contains(lines: Seq<LineSpan>, n: nat, c: int)
    requires
        spans_cover(lines, n),
        0 <= c < n,
    ensures
        0 <= line_index(lines, c) < lines.len(),
        lines[line_index(lines, c)].glyph_start <= c < lines[line_index(lines, c)].glyph_end,
{
    lemma_line_found_from(lines, n, c, 0);
}

impl GlyphBox {
    /// The center of the box, in half units.
    pub fn center(&self) -> (r: Point)
        ensures
            r == center_of(*self),
    {
        Point {
            x: 2 * (self.x as i64) + self.width as i64,
            y: 2 * (self.y as i64) + self.height as i64,
        }
    }

    /// The squared distance from the center of the box to `p`.
    pub fn distance_sq_to(&self, p: Point) -> (r: u128)
        ensures
            r as int == glyph_dist(*self, p),
    {
        let c = self.center();
        let dx: i128 = c.x as i128 - p.x as i128;
        let dy: i128 = c.y as i128 - p.y as i128;
        let ax: u128 = if dx < 0 { (-dx) as u128 } else { dx as u128 };
        let ay: u128 = if dy < 0 { (-dy) as u128 } else { dy as u128 };
        let bound: u128 = 0x8000_0002_0000_0000;
        assert(ax * ax <= bound * bound) by (nonlinear_arith)
            requires ax <= bound;
        assert(ay * ay <= bound * bound) by (nonlinear_arith)
            requires ay <= bound;
        assert(ax * ax == dx * dx) by (nonlinear_arith)
            requires ax == dx || ax == -dx;
        assert(ay * ay == dy * dy) by (nonlinear_arith)
            requires ay == dy || ay == -dy;
        ax * ax + ay * ay
    }
}

} // verus!
