//! Facts about the decoration geometry that relate several operations.

use vstd::prelude::*;

use crate::geometry::{Coord, Location, Rect};
use crate::parts::{hits, location_of, DecorationParts};

verus! {

/// After a resize the decorated envelope starts at the top strip's origin, is
/// as wide as the content plus two borders, and as high as the content, the
/// header and two borders together.
pub proof fn lemma_envelope_after_resize(p: DecorationParts, width: int, height: int)
    requires
        p.wf(),
        p.sized_for(width, height),
    ensures
        p.spec_surface_rect(true) == (Rect {
            x: -(p.spec_sizes().border as int) as i32,
            y: -(p.spec_sizes().header + p.spec_sizes().border) as i32,
            width: (width + 2 * p.spec_sizes().border) as u32,
            height: (height + p.spec_sizes().header + 2 * p.spec_sizes().border) as u32,
        }),
        p.spec_surface_rect(true).height == p.top().rect.height + p.left().rect.height
            + p.bottom().rect.height,
{
}

/// Without borders the surface rectangle is the header's visible rectangle.
pub proof fn lemma_surface_rect_without_borders(p: DecorationParts)
    requires
        p.wf(),
    ensures
        p.spec_surface_rect(false) == p.head().rect,
{
}

/// A point falls outside the decoration exactly when no part's input area
/// holds it.
pub proof fn lemma_outside_iff_no_part(p: DecorationParts, draw_borders: bool, x: Coord, y: Coord)
    requires
        p.wf(),
    ensures
        ({
            let o = p.spec_surface_rect(draw_borders);
            p.locate(draw_borders, x, y) == Location::Outside <==> forall|i: int|
                0 <= i < 5 ==> !#[trigger] hits(p@[i], x, y, o.x as int, o.y as int)
        }),
{
    reveal_with_fuel(DecorationParts::first_hit, 6);
    let o = p.spec_surface_rect(draw_borders);
    if forall|i: int| 0 <= i < 5 ==> !#[trigger] hits(p@[i], x, y, o.x as int, o.y as int) {
        assert(!hits(p@[0], x, y, o.x as int, o.y as int));
        assert(!hits(p@[1], x, y, o.x as int, o.y as int));
        assert(!hits(p@[2], x, y, o.x as int, o.y as int));
        assert(!hits(p@[3], x, y, o.x as int, o.y as int));
        assert(!hits(p@[4], x, y, o.x as int, o.y as int));
    }
}

/// Where input areas overlap, the first part in role order wins: top, left,
/// right, bottom, then header.
pub proof fn lemma_first_part_in_role_order_wins(
    p: DecorationParts,
    draw_borders: bool,
    x: Coord,
    y: Coord,
    i: int,
)
    requires
        p.wf(),
        0 <= i < 5,
        hits(p@[i], x, y, p.spec_surface_rect(draw_borders).x as int, p.spec_surface_rect(
            draw_borders,
        ).y as int),
        forall|j: int|
            0 <= j < i ==> !#[trigger] hits(
                p@[j],
                x,
                y,
                p.spec_surface_rect(draw_borders).x as int,
                p.spec_surface_rect(draw_borders).y as int,
            ),
    ensures
        p.locate(draw_borders, x, y) == location_of(i),
{
    reveal_with_fuel(DecorationParts::first_hit, 6);
    let o = p.spec_surface_rect(draw_borders);
    if i > 0 {
        assert(!hits(p@[0], x, y, o.x as int, o.y as int));
    }
    if i > 1 {
        assert(!hits(p@[1], x, y, o.x as int, o.y as int));
    }
    if i > 2 {
        assert(!hits(p@[2], x, y, o.x as int, o.y as int));
    }
    if i > 3 {
        assert(!hits(p@[3], x, y, o.x as int, o.y as int));
    }
}

/// A point in the top strip's input area is at the top, whatever other part
/// holds it too.
pub proof fn lemma_top_wins(p: DecorationParts, draw_borders: bool, x: Coord, y: Coord)
    requires
        p.wf(),
        hits(p.top(), x, y, p.spec_surface_rect(draw_borders).x as int, p.spec_surface_rect(
            draw_borders,
        ).y as int),
    ensures
        p.locate(draw_borders, x, y) == Location::Top,
{
    lemma_first_part_in_role_order_wins(p, draw_borders, x, y, 0);
}

/// The outcome of a hit test depends on the parts' geometry and the arguments
/// alone: two decorations with the same parts agree on every point.
pub proof fn lemma_hit_test_depends_on_geometry(
    p: DecorationParts,
    q: DecorationParts,
    draw_borders: bool,
    x: Coord,
    y: Coord,
)
    requires
        p@ == q@,
    ensures
        p.locate(draw_borders, x, y) == q.locate(draw_borders, x, y),
{
    reveal_with_fuel(DecorationParts::first_hit, 6);
}

} // verus!
