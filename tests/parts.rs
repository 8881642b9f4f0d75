use decoration_parts::{Coord, DecorationParts, DecorationSizes, Location, Part, Rect};

fn sizes() -> DecorationSizes {
    DecorationSizes { border: 4, header: 30, resize_handle: 8 }
}

fn resized(width: u32, height: u32) -> DecorationParts {
    let mut parts = DecorationParts::new(sizes());
    parts.resize(width, height);
    parts
}

fn rect(x: i32, y: i32, width: u32, height: u32) -> Rect {
    Rect { x, y, width, height }
}

fn at(x: i64, y: i64) -> (Coord, Coord) {
    (Coord::exact(x), Coord::exact(y))
}

fn frac(v: f64) -> Coord {
    Coord { floor: v.floor() as i64, ceil: v.ceil() as i64 }
}

fn find(parts: &DecorationParts, draw_borders: bool, x: i64, y: i64) -> Location {
    let (x, y) = at(x, y);
    parts.find_part(true, draw_borders, x, y)
}

#[test]
fn rect_default_is_zero() {
    assert_eq!(Rect::default(), rect(0, 0, 0, 0));
}

#[test]
fn input_rect_defaults_to_whole_rect() {
    let part = Part { rect: rect(-3, 7, 20, 9), input_rect: None };
    assert_eq!(part.input_rect(), rect(0, 0, 20, 9));
}

#[test]
fn input_rect_uses_explicit_rect() {
    let part = Part { rect: rect(-3, 7, 20, 9), input_rect: Some(rect(1, -2, 5, 6)) };
    assert_eq!(part.input_rect(), rect(1, -2, 5, 6));
}

#[test]
fn new_lays_out_fixed_geometry() {
    let parts = DecorationParts::new(sizes());
    assert_eq!(parts.sizes(), sizes());
    let all = parts.parts();
    assert_eq!(all[DecorationParts::TOP].rect, rect(-4, -34, 0, 4));
    assert_eq!(all[DecorationParts::TOP].input_rect, Some(rect(-4, -4, 0, 8)));
    assert_eq!(all[DecorationParts::LEFT].rect, rect(-4, -30, 4, 0));
    assert_eq!(all[DecorationParts::LEFT].input_rect, Some(rect(-4, 0, 8, 0)));
    assert_eq!(all[DecorationParts::RIGHT].rect, rect(0, -30, 4, 0));
    assert_eq!(all[DecorationParts::RIGHT].input_rect, Some(rect(0, 0, 8, 0)));
    assert_eq!(all[DecorationParts::BOTTOM].rect, rect(-4, 0, 0, 4));
    assert_eq!(all[DecorationParts::BOTTOM].input_rect, Some(rect(-4, 0, 0, 8)));
    assert_eq!(all[DecorationParts::HEADER].rect, rect(0, -30, 0, 30));
    assert_eq!(all[DecorationParts::HEADER].input_rect, None);
}

#[test]
fn resize_scenario() {
    let parts = resized(100, 50);
    let all = parts.parts();
    assert_eq!(parts.header().rect, rect(0, -30, 100, 30));
    assert_eq!(all[DecorationParts::BOTTOM].rect, rect(-4, 50, 108, 4));
    assert_eq!(all[DecorationParts::TOP].rect, rect(-4, -34, 108, 4));
    assert_eq!(all[DecorationParts::LEFT].rect.height, 80);
    assert_eq!(parts.side_height(), 80);
    assert_eq!(all[DecorationParts::RIGHT].rect, rect(100, -30, 4, 80));
}

#[test]
fn resize_sets_input_areas() {
    let parts = resized(100, 50);
    let all = parts.parts();
    assert_eq!(all[DecorationParts::TOP].input_rect(), rect(-4, -4, 116, 8));
    assert_eq!(all[DecorationParts::BOTTOM].input_rect(), rect(-4, 0, 116, 8));
    assert_eq!(all[DecorationParts::LEFT].input_rect(), rect(-4, 0, 8, 80));
    assert_eq!(all[DecorationParts::RIGHT].input_rect(), rect(0, 0, 8, 80));
    assert_eq!(all[DecorationParts::HEADER].input_rect(), rect(0, 0, 100, 30));
}

#[test]
fn resize_keeps_strips_consistent() {
    for &(w, h) in &[(0u32, 0u32), (1, 1), (100, 50), (640, 480), (3, 10_000)] {
        let parts = resized(w, h);
        let all = parts.parts();
        assert_eq!(parts.header().rect.width, w);
        assert_eq!(all[DecorationParts::TOP].rect.width, w + 8);
        assert_eq!(all[DecorationParts::BOTTOM].rect.width, w + 8);
        assert_eq!(all[DecorationParts::LEFT].rect.height, h + 30);
        assert_eq!(all[DecorationParts::RIGHT].rect.height, h + 30);
    }
}

#[test]
fn resize_twice_follows_latest_size() {
    let mut parts = resized(100, 50);
    parts.resize(20, 10);
    assert_eq!(parts.header().rect, rect(0, -30, 20, 30));
    assert_eq!(parts.parts()[DecorationParts::RIGHT].rect, rect(20, -30, 4, 40));
    assert_eq!(parts.parts()[DecorationParts::BOTTOM].rect, rect(-4, 10, 28, 4));
}

#[test]
fn surface_rect_with_borders_stacks_strips() {
    let parts = resized(100, 50);
    let all = parts.parts();
    let r = parts.surface_rect(true);
    assert_eq!(r, rect(-4, -34, 108, 88));
    assert_eq!(
        r.height,
        all[DecorationParts::TOP].rect.height
            + all[DecorationParts::LEFT].rect.height
            + all[DecorationParts::BOTTOM].rect.height
    );
}

#[test]
fn surface_rect_without_borders_is_header() {
    let parts = resized(100, 50);
    assert_eq!(parts.surface_rect(false), parts.header().rect);
    assert_eq!(parts.surface_rect(false), rect(0, -30, 100, 30));
}

#[test]
fn corner_prefers_top_over_left() {
    let parts = resized(100, 50);
    // Surface (0, 4) is (-4, -30) on the main surface: in the top and the
    // left input zones both.
    assert_eq!(find(&parts, true, 0, 4), Location::Top);
    assert_eq!(find(&parts, true, -4, 4), Location::Top);
    assert_eq!(find(&parts, true, 0, 5), Location::Left);
}

#[test]
fn corner_prefers_right_over_bottom() {
    let parts = resized(100, 50);
    // Surface (106, 84) is (102, 50) on the main surface.
    assert_eq!(find(&parts, true, 106, 84), Location::Right);
    assert_eq!(find(&parts, true, 106, 85), Location::Bottom);
}

#[test]
fn find_part_each_region() {
    let parts = resized(100, 50);
    assert_eq!(find(&parts, true, 50, 0), Location::Top);
    assert_eq!(find(&parts, true, 1, 40), Location::Left);
    assert_eq!(find(&parts, true, 106, 40), Location::Right);
    assert_eq!(find(&parts, true, 50, 87), Location::Bottom);
    assert_eq!(find(&parts, true, 50, 20), Location::Head);
    assert_eq!(find(&parts, false, 50, 5), Location::Head);
}

#[test]
fn find_part_outside_every_part() {
    let parts = resized(100, 50);
    // Content area.
    assert_eq!(find(&parts, true, 50, 60), Location::Outside);
    // Far away.
    assert_eq!(find(&parts, true, -1000, -1000), Location::Outside);
    assert_eq!(find(&parts, true, 5000, 40), Location::Outside);
    assert_eq!(find(&parts, true, i64::MAX, i64::MIN), Location::Outside);
    // The bottom input zone ends at y 50 + 8 = 58, surface 92.
    assert_eq!(find(&parts, true, 50, 92), Location::Bottom);
    assert_eq!(find(&parts, true, 50, 93), Location::Outside);
}

#[test]
fn find_part_other_surface() {
    let parts = resized(100, 50);
    let (x, y) = at(50, 20);
    assert_eq!(parts.find_part(false, true, x, y), Location::Outside);
    assert_eq!(parts.find_part(true, true, x, y), Location::Head);
}

#[test]
fn find_part_edges_are_inclusive_for_fractions() {
    let parts = resized(100, 50);
    // Without borders the header spans surface x in [0, 100], y in [0, 30];
    // the right strip's input zone starts at x 100.
    assert_eq!(parts.find_part(true, false, frac(99.5), frac(10.0)), Location::Head);
    assert_eq!(parts.find_part(true, false, frac(100.0), frac(10.0)), Location::Right);
    assert_eq!(parts.find_part(true, false, frac(100.5), frac(29.25)), Location::Right);
    assert_eq!(parts.find_part(true, false, frac(50.0), frac(29.5)), Location::Head);
    assert_eq!(parts.find_part(true, false, frac(50.0), frac(30.0)), Location::Head);
    assert_eq!(parts.find_part(true, false, frac(50.0), frac(30.5)), Location::Outside);
    assert_eq!(parts.find_part(true, false, frac(0.0), frac(0.0)), Location::Top);
}

#[test]
fn find_part_is_repeatable() {
    let parts = resized(100, 50);
    for &(x, y) in &[(0i64, 4i64), (50, 20), (50, 60), (106, 84)] {
        let first = find(&parts, true, x, y);
        let second = find(&parts, true, x, y);
        assert_eq!(first, second);
    }
}

#[test]
fn queries_leave_geometry_unchanged() {
    let parts = resized(100, 50);
    let before = *parts.parts();
    let _ = parts.surface_rect(true);
    let _ = find(&parts, true, 0, 4);
    assert_eq!(*parts.parts(), before);
}
