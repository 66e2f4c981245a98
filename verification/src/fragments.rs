//! The rasterizer: from three transformed vertices to the fragments of the
//! pixels that their triangle covers.
use crate::bounding_box::{
    barycentric_coordinates, bounding_box_spec, calculate_bounding_box, center_of_pixel, covers,
    edge_function, edge_spec, interpolate_spec, pixel_center, weights_spec, Weights,
};
use crate::screen::color::Color;
use crate::vector::{Vec2, Vec3};
use crate::vertex::Vertex;
use vstd::prelude::*;

verus! {

/// A pixel of the screen, by column and row.
#[derive(Clone, Copy, Debug, PartialEq, Eq, Structural)]
pub struct Pixel {
    pub x: usize,
    pub y: usize,
}

/// What the rasterizer knows of one covered pixel.
#[derive(Clone, Copy, Debug, PartialEq, Eq, Structural)]
pub struct Fragment {
    pub position: Pixel,
    pub color: Color,
    /// Interpolated depth.
    pub depth: i32,
    /// Interpolated normal, scaled to unit length.
    pub normal: Vec3,
    pub intensity: i32,
    /// Interpolated texture coordinate.
    pub texture_pos: Vec2,
}

impl Fragment {
    pub fn new(
        x: usize,
        y: usize,
        color: Color,
        depth: i32,
        normal: Vec3,
        intensity: i32,
        texture_pos: Vec2,
    ) -> (f: Fragment)
        ensures
            f == (Fragment {
                position: Pixel { x, y },
                color,
                depth,
                normal,
                intensity,
                texture_pos,
            }),
    {
        Fragment { position: Pixel { x, y }, color, depth, normal, intensity, texture_pos }
    }
}

/// The grey that every fragment leaves the rasterizer with.
pub open spec fn fragment_grey() -> Color {
    Color { r: 100, g: 100, b: 100 }
}

/// Whether any of three vertices has no place on the screen.
pub open spec fn any_degenerate(v1: Vertex, v2: Vertex, v3: Vertex) -> bool {
    v1.degenerate || v2.degenerate || v3.degenerate
}

/// The weights of the centre of pixel `(x, y)` against the triangle on the
/// screen.
pub open spec fn weights_at(v1: Vertex, v2: Vertex, v3: Vertex, x: int, y: int) -> (
    int,
    int,
    int,
    int,
) {
    weights_spec(
        pixel_center(x, y),
        v1.transformed_position,
        v2.transformed_position,
        v3.transformed_position,
    )
}

/// Whether the triangle covers pixel `(x, y)`: all three weights of the
/// pixel's centre lie in the closed interval from zero to one.
pub open spec fn covered_at(v1: Vertex, v2: Vertex, v3: Vertex, x: int, y: int) -> bool {
    covers(weights_at(v1, v2, v3, x, y))
}

/// The interpolated normal at given weights, before it is scaled to unit
/// length.
pub open spec fn interpolated_normal(
    w: (int, int, int, int),
    v1: Vertex,
    v2: Vertex,
    v3: Vertex,
) -> Vec3 {
    Vec3 {
        x: interpolate_spec(
            w,
            v1.transformed_normal.x,
            v2.transformed_normal.x,
            v3.transformed_normal.x,
        ),
        y: interpolate_spec(
            w,
            v1.transformed_normal.y,
            v2.transformed_normal.y,
            v3.transformed_normal.y,
        ),
        z: interpolate_spec(
            w,
            v1.transformed_normal.z,
            v2.transformed_normal.z,
            v3.transformed_normal.z,
        ),
    }
}

/// The fragment of pixel `(x, y)`: depth, normal and texture coordinate
/// interpolated with the weights of the pixel's centre.
pub open spec fn fragment_at(v1: Vertex, v2: Vertex, v3: Vertex, x: int, y: int) -> Fragment {
    let w = weights_at(v1, v2, v3, x, y);
    Fragment {
        position: Pixel { x: x as usize, y: y as usize },
        color: fragment_grey(),
        depth: interpolate_spec(
            w,
            v1.transformed_position.z,
            v2.transformed_position.z,
            v3.transformed_position.z,
        ),
        normal: interpolated_normal(w, v1, v2, v3).normalize_spec(),
        intensity: 0,
        texture_pos: Vec2 {
            x: interpolate_spec(w, v1.tex_coords.x, v2.tex_coords.x, v3.tex_coords.x),
            y: interpolate_spec(w, v1.tex_coords.y, v2.tex_coords.y, v3.tex_coords.y),
        },
    }
}

/// What pixel `(x, y)` adds to the output: its fragment if it is covered,
/// else nothing.
pub open spec fn pixel_fragments(v1: Vertex, v2: Vertex, v3: Vertex, x: int, y: int) -> Seq<
    Fragment,
> {
    if covered_at(v1, v2, v3, x, y) {
        seq![fragment_at(v1, v2, v3, x, y)]
    } else {
        Seq::empty()
    }
}

/// The fragments of row `y` in columns `x0..x1`, left to right.
pub open spec fn row_fragments(v1: Vertex, v2: Vertex, v3: Vertex, y: int, x0: int, x1: int) -> Seq<
    Fragment,
>
    decreases x1 - x0,
{
    if x1 <= x0 {
        Seq::empty()
    } else {
        row_fragments(v1, v2, v3, y, x0, x1 - 1) + pixel_fragments(v1, v2, v3, x1 - 1, y)
    }
}

/// The fragments of rows `y0..y1`, each in columns `x0..x1`, top to bottom.
pub open spec fn box_fragments(
    v1: Vertex,
    v2: Vertex,
    v3: Vertex,
    y0: int,
    y1: int,
    x0: int,
    x1: int,
) -> Seq<Fragment>
    decreases y1 - y0,
{
    if y1 <= y0 {
        Seq::empty()
    } else {
        box_fragments(v1, v2, v3, y0, y1 - 1, x0, x1) + row_fragments(v1, v2, v3, y1 - 1, x0, x1)
    }
}

/// The fragments of a triangle: those of the covered pixels of its pixel
/// box, in row-major order. A triangle with a vertex that has no place on
/// the screen has none, and neither has one without area.
pub open spec fn triangle_fill_spec(v1: Vertex, v2: Vertex, v3: Vertex) -> Seq<Fragment> {
    if any_degenerate(v1, v2, v3) {
        Seq::empty()
    } else {
        let bb = bounding_box_spec(
            v1.transformed_position,
            v2.transformed_position,
            v3.transformed_position,
        );
        box_fragments(v1, v2, v3, bb.1, bb.3, bb.0, bb.2)
    }
}

/// Whether `f` is the fragment of a covered pixel of row `y` in columns
/// `x0..x1`.
pub open spec fn fragment_of_row(
    v1: Vertex,
    v2: Vertex,
    v3: Vertex,
    y: int,
    x0: int,
    x1: int,
    f: Fragment,
) -> bool {
    exists|x: int|
        x0 <= x < x1 && #[trigger] covered_at(v1, v2, v3, x, y) && f == fragment_at(
            v1,
            v2,
            v3,
            x,
            y,
        )
}

/// Whether `f` is the fragment of a covered pixel of rows `y0..y1` in
/// columns `x0..x1`.
pub open spec fn fragment_of_box(
    v1: Vertex,
    v2: Vertex,
    v3: Vertex,
    y0: int,
    y1: int,
    x0: int,
    x1: int,
    f: Fragment,
) -> bool {
    exists|y: int| y0 <= y < y1 && #[trigger] fragment_of_row(v1, v2, v3, y, x0, x1, f)
}

/// A row's output holds exactly the fragments of the row's covered pixels.
pub proof fn lemma_row_fragments(
    v1: Vertex,
    v2: Vertex,
    v3: Vertex,
    y: int,
    x0: int,
    x1: int,
    f: Fragment,
)
    ensures
        row_fragments(v1, v2, v3, y, x0, x1).contains(f) <==> fragment_of_row(
            v1,
            v2,
            v3,
            y,
            x0,
            x1,
            f,
        ),
    decreases x1 - x0,
{
    if x1 <= x0 {
        assert(!row_fragments(v1, v2, v3, y, x0, x1).contains(f));
    } else {
        lemma_row_fragments(v1, v2, v3, y, x0, x1 - 1, f);
        let before = row_fragments(v1, v2, v3, y, x0, x1 - 1);
        let last = pixel_fragments(v1, v2, v3, x1 - 1, y);
        lemma_contains_concat(before, last, f);
        if covered_at(v1, v2, v3, x1 - 1, y) {
            assert(last[0] == fragment_at(v1, v2, v3, x1 - 1, y));
            assert(last.contains(f) <==> f == fragment_at(v1, v2, v3, x1 - 1, y));
        } else {
            assert(!last.contains(f));
        }
        if fragment_of_row(v1, v2, v3, y, x0, x1, f) {
            let x = choose|x: int|
                x0 <= x < x1 && #[trigger] covered_at(v1, v2, v3, x, y) && f == fragment_at(
                    v1,
                    v2,
                    v3,
                    x,
                    y,
                );
            if x < x1 - 1 {
                assert(fragment_of_row(v1, v2, v3, y, x0, x1 - 1, f));
            }
        }
        if fragment_of_row(v1, v2, v3, y, x0, x1 - 1, f) {
            let x = choose|x: int|
                x0 <= x < x1 - 1 && #[trigger] covered_at(v1, v2, v3, x, y) && f == fragment_at(
                    v1,
                    v2,
                    v3,
                    x,
                    y,
                );
            assert(x0 <= x < x1);
        }
    }
}

/// A concatenation holds what either part holds.
proof fn lemma_contains_concat(a: Seq<Fragment>, b: Seq<Fragment>, f: Fragment)
    ensures
        (a + b).contains(f) <==> a.contains(f) || b.contains(f),
{
    if a.contains(f) {
        let i = choose|i: int| 0 <= i < a.len() && a[i] == f;
        assert((a + b)[i] == f);
    }
    if b.contains(f) {
        let i = choose|i: int| 0 <= i < b.len() && b[i] == f;
        assert((a + b)[a.len() + i] == f);
    }
    if (a + b).contains(f) {
        let i = choose|i: int| 0 <= i < (a + b).len() && (a + b)[i] == f;
        if i < a.len() {
            assert(a[i] == f);
        } else {
            assert(b[i - a.len()] == f);
        }
    }
}

/// A box's output holds exactly the fragments of the box's covered pixels.
pub proof fn lemma_box_fragments(
    v1: Vertex,
    v2: Vertex,
    v3: Vertex,
    y0: int,
    y1: int,
    x0: int,
    x1: int,
    f: Fragment,
)
    ensures
        box_fragments(v1, v2, v3, y0, y1, x0, x1).contains(f) <==> fragment_of_box(
            v1,
            v2,
            v3,
            y0,
            y1,
            x0,
            x1,
            f,
        ),
    decreases y1 - y0,
{
    if y1 <= y0 {
        assert(!box_fragments(v1, v2, v3, y0, y1, x0, x1).contains(f));
    } else {
        lemma_box_fragments(v1, v2, v3, y0, y1 - 1, x0, x1, f);
        lemma_row_fragments(v1, v2, v3, y1 - 1, x0, x1, f);
        lemma_contains_concat(
            box_fragments(v1, v2, v3, y0, y1 - 1, x0, x1),
            row_fragments(v1, v2, v3, y1 - 1, x0, x1),
            f,
        );
        if fragment_of_box(v1, v2, v3, y0, y1, x0, x1, f) {
            let y = choose|y: int|
                y0 <= y < y1 && #[trigger] fragment_of_row(v1, v2, v3, y, x0, x1, f);
            if y < y1 - 1 {
                assert(fragment_of_box(v1, v2, v3, y0, y1 - 1, x0, x1, f));
            }
        }
        if fragment_of_box(v1, v2, v3, y0, y1 - 1, x0, x1, f) {
            let y = choose|y: int|
                y0 <= y < y1 - 1 && #[trigger] fragment_of_row(v1, v2, v3, y, x0, x1, f);
            assert(y0 <= y < y1);
        }
    }
}

/// The rasterizer is exact: a fragment leaves it if and only if it is the
/// fragment of a pixel of the triangle's pixel box whose centre the
/// triangle covers, and no vertex of the triangle is degenerate.
pub proof fn lemma_triangle_fill_exact(v1: Vertex, v2: Vertex, v3: Vertex, f: Fragment)
    ensures
        triangle_fill_spec(v1, v2, v3).contains(f) <==> {
            let bb = bounding_box_spec(
                v1.transformed_position,
                v2.transformed_position,
                v3.transformed_position,
            );
            !any_degenerate(v1, v2, v3) && fragment_of_box(v1, v2, v3, bb.1, bb.3, bb.0, bb.2, f)
        },
{
    let bb = bounding_box_spec(
        v1.transformed_position,
        v2.transformed_position,
        v3.transformed_position,
    );
    if any_degenerate(v1, v2, v3) {
        assert(!triangle_fill_spec(v1, v2, v3).contains(f));
    } else {
        lemma_box_fragments(v1, v2, v3, bb.1, bb.3, bb.0, bb.2, f);
    }
}

/// Whether pixel `p` comes before pixel `q` in row-major order.
pub open spec fn precedes(p: Pixel, q: Pixel) -> bool {
    p.y < q.y || (p.y == q.y && p.x < q.x)
}

/// Whether the fragments come in strictly ascending row-major order of
/// their pixels, so that no pixel has two of them.
pub open spec fn ascending(s: Seq<Fragment>) -> bool {
    forall|i: int, j: int| 0 <= i < j < s.len() ==> precedes(s[i].position, s[j].position)
}

/// Whether every fragment lies in rows `y0..y1` and columns `x0..x1`.
pub open spec fn within(s: Seq<Fragment>, y0: int, y1: int, x0: int, x1: int) -> bool {
    forall|k: int|
        0 <= k < s.len() ==> y0 <= (#[trigger] s[k]).position.y < y1 && x0 <= s[k].position.x < x1
}

/// The fragments of a row lie in the row, in ascending order of column.
proof fn lemma_row_ascends(v1: Vertex, v2: Vertex, v3: Vertex, y: int, x0: int, x1: int)
    requires
        0 <= y < 32768,
        0 <= x0,
        x1 <= 32768,
    ensures
        within(row_fragments(v1, v2, v3, y, x0, x1), y, y + 1, x0, x1),
        ascending(row_fragments(v1, v2, v3, y, x0, x1)),
    decreases x1 - x0,
{
    if x1 > x0 {
        lemma_row_ascends(v1, v2, v3, y, x0, x1 - 1);
        let before = row_fragments(v1, v2, v3, y, x0, x1 - 1);
        let row = row_fragments(v1, v2, v3, y, x0, x1);
        assert forall|k: int| 0 <= k < row.len() implies y <= (#[trigger] row[k]).position.y < y
            + 1 && x0 <= row[k].position.x < x1 by {
            if k < before.len() {
                assert(row[k] == before[k]);
            } else {
                assert(row[k] == fragment_at(v1, v2, v3, x1 - 1, y));
            }
        }
        assert forall|i: int, j: int| 0 <= i < j < row.len() implies precedes(
            row[i].position,
            row[j].position,
        ) by {
            assert(row[i] == before[i]);
            if j < before.len() {
                assert(row[j] == before[j]);
            } else {
                assert(row[j] == fragment_at(v1, v2, v3, x1 - 1, y));
            }
        }
    }
}

/// The fragments of a box lie in the box, in ascending row-major order.
proof fn lemma_box_ascends(
    v1: Vertex,
    v2: Vertex,
    v3: Vertex,
    y0: int,
    y1: int,
    x0: int,
    x1: int,
)
    requires
        0 <= y0,
        y1 <= 32768,
        0 <= x0,
        x1 <= 32768,
    ensures
        within(box_fragments(v1, v2, v3, y0, y1, x0, x1), y0, y1, x0, x1),
        ascending(box_fragments(v1, v2, v3, y0, y1, x0, x1)),
    decreases y1 - y0,
{
    if y1 > y0 {
        lemma_box_ascends(v1, v2, v3, y0, y1 - 1, x0, x1);
        lemma_row_ascends(v1, v2, v3, y1 - 1, x0, x1);
        let above = box_fragments(v1, v2, v3, y0, y1 - 1, x0, x1);
        let row = row_fragments(v1, v2, v3, y1 - 1, x0, x1);
        let all = box_fragments(v1, v2, v3, y0, y1, x0, x1);
        assert forall|k: int| 0 <= k < all.len() implies y0 <= (#[trigger] all[k]).position.y < y1
            && x0 <= all[k].position.x < x1 by {
            if k < above.len() {
                assert(all[k] == above[k]);
            } else {
                assert(all[k] == row[k - above.len()]);
            }
        }
        assert forall|i: int, j: int| 0 <= i < j < all.len() implies precedes(
            all[i].position,
            all[j].position,
        ) by {
            if j < above.len() {
                assert(all[i] == above[i] && all[j] == above[j]);
            } else if i < above.len() {
                assert(all[i] == above[i] && all[j] == row[j - above.len()]);
            } else {
                assert(all[i] == row[i - above.len()] && all[j] == row[j - above.len()]);
            }
        }
    }
}

/// The rasterizer emits its fragments in strictly ascending row-major order
/// of their pixels, all inside the triangle's pixel box: a covered pixel
/// has one fragment and no more.
pub proof fn lemma_triangle_fill_ascends(v1: Vertex, v2: Vertex, v3: Vertex)
    ensures
        ascending(triangle_fill_spec(v1, v2, v3)),
        ({
            let bb = bounding_box_spec(
                v1.transformed_position,
                v2.transformed_position,
                v3.transformed_position,
            );
            within(triangle_fill_spec(v1, v2, v3), bb.1, bb.3, bb.0, bb.2)
        }),
{
    let bb = bounding_box_spec(
        v1.transformed_position,
        v2.transformed_position,
        v3.transformed_position,
    );
    if !any_degenerate(v1, v2, v3) {
        lemma_box_ascends(v1, v2, v3, bb.1, bb.3, bb.0, bb.2);
    }
}

/// A triangle without area covers no pixel, so it has no fragments.
pub proof fn lemma_triangle_without_area(v1: Vertex, v2: Vertex, v3: Vertex)
    requires
        edge_spec(
            v1.transformed_position,
            v2.transformed_position,
            v3.transformed_position,
        ) == 0,
    ensures
        triangle_fill_spec(v1, v2, v3) == Seq::<Fragment>::empty(),
{
    let bb = bounding_box_spec(
        v1.transformed_position,
        v2.transformed_position,
        v3.transformed_position,
    );
    if !any_degenerate(v1, v2, v3) {
        lemma_empty_box(v1, v2, v3, bb.1, bb.3, bb.0, bb.2);
    }
}

/// A row of a triangle without area has no fragments.
proof fn lemma_empty_row(v1: Vertex, v2: Vertex, v3: Vertex, y: int, x0: int, x1: int)
    requires
        edge_spec(
            v1.transformed_position,
            v2.transformed_position,
            v3.transformed_position,
        ) == 0,
    ensures
        row_fragments(v1, v2, v3, y, x0, x1) == Seq::<Fragment>::empty(),
    decreases x1 - x0,
{
    if x1 > x0 {
        lemma_empty_row(v1, v2, v3, y, x0, x1 - 1);
        assert(!covered_at(v1, v2, v3, x1 - 1, y));
        assert(row_fragments(v1, v2, v3, y, x0, x1) =~= Seq::<Fragment>::empty());
    }
}

/// A box of a triangle without area has no fragments.
proof fn lemma_empty_box(v1: Vertex, v2: Vertex, v3: Vertex, y0: int, y1: int, x0: int, x1: int)
    requires
        edge_spec(
            v1.transformed_position,
            v2.transformed_position,
            v3.transformed_position,
        ) == 0,
    ensures
        box_fragments(v1, v2, v3, y0, y1, x0, x1) == Seq::<Fragment>::empty(),
    decreases y1 - y0,
{
    if y1 > y0 {
        lemma_empty_box(v1, v2, v3, y0, y1 - 1, x0, x1);
        lemma_empty_row(v1, v2, v3, y1 - 1, x0, x1);
        assert(box_fragments(v1, v2, v3, y0, y1, x0, x1) =~= Seq::<Fragment>::empty());
    }
}

/// Computes the fragment of a pixel from the weights of its centre.
fn make_fragment(v1: &Vertex, v2: &Vertex, v3: &Vertex, x: usize, y: usize, w: &Weights) -> (f:
    Fragment)
    requires
        w.bounded(),
        w.area != i128::MIN,
        w@ == weights_at(*v1, *v2, *v3, x as int, y as int),
    ensures
        f == fragment_at(*v1, *v2, *v3, x as int, y as int),
{
    let color: Color = Color::new(100, 100, 100);
    let depth: i32 = w.interpolate(
        v1.transformed_position.z,
        v2.transformed_position.z,
        v3.transformed_position.z,
    );
    let old_normal: Vec3 = Vec3 {
        x: w.interpolate(v1.transformed_normal.x, v2.transformed_normal.x, v3.transformed_normal.x),
        y: w.interpolate(v1.transformed_normal.y, v2.transformed_normal.y, v3.transformed_normal.y),
        z: w.interpolate(v1.transformed_normal.z, v2.transformed_normal.z, v3.transformed_normal.z),
    };
    let normal: Vec3 = old_normal.normalize();
    let u: i32 = w.interpolate(v1.tex_coords.x, v2.tex_coords.x, v3.tex_coords.x);
    let v: i32 = w.interpolate(v1.tex_coords.y, v2.tex_coords.y, v3.tex_coords.y);
    Fragment::new(x, y, color, depth, normal, 0, Vec2 { x: u, y: v })
}

/// Rasterizes one triangle: walks its pixel box row by row and emits a
/// fragment for every pixel whose centre the triangle covers.
pub fn triangle_fill(v1: &Vertex, v2: &Vertex, v3: &Vertex) -> (fragments: Vec<Fragment>)
    ensures
        fragments@ == triangle_fill_spec(*v1, *v2, *v3),
{
    let mut fragments: Vec<Fragment> = Vec::new();
    if v1.degenerate || v2.degenerate || v3.degenerate {
        return fragments;
    }
    let a: Vec3 = v1.transformed_position;
    let b: Vec3 = v2.transformed_position;
    let c: Vec3 = v3.transformed_position;
    let (min_x, min_y, max_x, max_y): (usize, usize, usize, usize) = calculate_bounding_box(
        &a,
        &b,
        &c,
    );
    let triangle_area: i128 = edge_function(&a, &b, &c);
    let mut y: usize = min_y;
    while y < max_y
        invariant
            min_y <= y <= max_y <= 32768,
            min_x <= max_x <= 32768,
            a == v1.transformed_position,
            b == v2.transformed_position,
            c == v3.transformed_position,
            triangle_area == edge_spec(a, b, c),
            -0x2_0000_0000_0000_0000 <= triangle_area <= 0x2_0000_0000_0000_0000,
            fragments@ == box_fragments(
                *v1,
                *v2,
                *v3,
                min_y as int,
                y as int,
                min_x as int,
                max_x as int,
            ),
        decreases max_y - y,
    {
        let ghost above = fragments@;
        let mut x: usize = min_x;
        while x < max_x
            invariant
                min_y <= y < max_y <= 32768,
                min_x <= x <= max_x <= 32768,
                a == v1.transformed_position,
                b == v2.transformed_position,
                c == v3.transformed_position,
                triangle_area == edge_spec(a, b, c),
            -0x2_0000_0000_0000_0000 <= triangle_area <= 0x2_0000_0000_0000_0000,
                fragments@ == above + row_fragments(
                    *v1,
                    *v2,
                    *v3,
                    y as int,
                    min_x as int,
                    x as int,
                ),
            decreases max_x - x,
        {
            let point: Vec3 = center_of_pixel(x, y);
            let w: Weights = barycentric_coordinates(&point, &a, &b, &c, triangle_area);
            let ghost row = row_fragments(*v1, *v2, *v3, y as int, min_x as int, x as int);
            if w.covered() {
                fragments.push(make_fragment(v1, v2, v3, x, y, &w));
                assert(fragments@ =~= above + (row + pixel_fragments(
                    *v1,
                    *v2,
                    *v3,
                    x as int,
                    y as int,
                )));
            } else {
                assert(fragments@ =~= above + (row + pixel_fragments(
                    *v1,
                    *v2,
                    *v3,
                    x as int,
                    y as int,
                )));
            }
            x += 1;
        }
        y += 1;
    }
    fragments
}

} // verus!
