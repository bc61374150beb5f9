use scene_flatten::geom::{Rect, Size, Vector, sat_add, sat_sub, subtract_rect};

fn rect(x: i64, y: i64, w: i64, h: i64) -> Rect {
    Rect { origin: Vector { x, y }, size: Size { w, h } }
}

#[test]
fn saturating_ops_clamp_at_the_range_edges() {
    assert_eq!(sat_add(1, 2), 3);
    assert_eq!(sat_add(i64::MAX, 1), i64::MAX);
    assert_eq!(sat_add(i64::MIN, -1), i64::MIN);
    assert_eq!(sat_sub(i64::MIN, 1), i64::MIN);
    assert_eq!(sat_sub(0, i64::MIN), i64::MAX);
}

#[test]
fn intersection_of_overlapping_rects() {
    let a = rect(0, 0, 100, 50);
    let b = rect(60, 20, 100, 100);
    let r = a.intersection(&b).unwrap();
    assert_eq!(r, rect(60, 20, 40, 30));
}

#[test]
fn intersection_of_disjoint_rects_is_none() {
    let a = rect(0, 0, 10, 10);
    let b = rect(10, 0, 10, 10);
    assert!(a.intersection(&b).is_none());
    assert!(a.intersection(&rect(0, 0, 10, 0)).is_none());
}

#[test]
fn translate_moves_the_origin_only() {
    let r = rect(1, 2, 3, 4).translate(Vector { x: 10, y: 20 });
    assert_eq!(r, rect(11, 22, 3, 4));
}

#[test]
fn subtract_rect_yields_the_four_strips() {
    let outer = rect(0, 0, 100, 100);
    let inner = rect(10, 10, 80, 80);
    let pieces = subtract_rect(&outer, &inner);
    assert_eq!(pieces.len(), 4);
    assert_eq!(pieces[0], rect(0, 0, 100, 10));
    assert_eq!(pieces[1], rect(0, 10, 10, 80));
    assert_eq!(pieces[2], rect(90, 10, 10, 80));
    assert_eq!(pieces[3], rect(0, 90, 100, 10));
    let area: i64 = pieces.iter().map(|p| p.size.w * p.size.h).sum();
    assert_eq!(area, 100 * 100 - 80 * 80);
}

#[test]
fn subtract_rect_with_disjoint_inner_returns_outer() {
    let outer = rect(0, 0, 10, 10);
    let inner = rect(50, 50, 10, 10);
    let pieces = subtract_rect(&outer, &inner);
    assert_eq!(pieces.len(), 1);
    assert_eq!(pieces[0], outer);
}

#[test]
fn subtract_rect_with_inner_touching_an_edge() {
    let outer = rect(0, 0, 100, 100);
    let inner = rect(0, 0, 100, 30);
    let pieces = subtract_rect(&outer, &inner);
    assert_eq!(pieces.len(), 1);
    assert_eq!(pieces[0], rect(0, 30, 100, 70));
}
