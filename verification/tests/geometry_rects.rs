use azul::LayoutPoint;
use azul::LayoutRect;
use azul::LayoutSize;

#[test]
fn rect_edges_and_zero() {
    let r = LayoutRect::new(LayoutPoint::new(10, 20), LayoutSize::new(30, 40));
    assert_eq!(r.min_x(), 10);
    assert_eq!(r.max_x(), 40);
    assert_eq!(r.min_y(), 20);
    assert_eq!(r.max_y(), 60);

    let z = LayoutRect::zero();
    assert_eq!(z.min_x(), 0);
    assert_eq!(z.max_x(), 0);
}

#[test]
fn contains_excludes_the_far_edges() {
    let r = LayoutRect::new(LayoutPoint::new(0, 0), LayoutSize::new(10, 10));
    assert!(r.contains(&LayoutPoint::new(0, 0)));
    assert!(r.contains(&LayoutPoint::new(9, 9)));
    assert!(!r.contains(&LayoutPoint::new(10, 5)));
    assert!(!r.contains(&LayoutPoint::new(5, 10)));
    assert!(!r.contains(&LayoutPoint::new(-1, 5)));
}

#[test]
fn hit_test_answers_the_offset_strictly_inside() {
    let r = LayoutRect::new(LayoutPoint::new(10, 10), LayoutSize::new(10, 10));
    assert_eq!(r.hit_test(&LayoutPoint::new(12, 15)), Some(LayoutPoint::new(2, 5)));
    assert_eq!(r.hit_test(&LayoutPoint::new(10, 15)), None);
    assert_eq!(r.hit_test(&LayoutPoint::new(20, 15)), None);
    assert_eq!(r.hit_test(&LayoutPoint::new(15, 10)), None);
    assert_eq!(r.hit_test(&LayoutPoint::new(0, 0)), None);
}

#[test]
fn contains_rect_requires_full_enclosure() {
    let a = LayoutRect::new(LayoutPoint::new(0, 0), LayoutSize::new(100, 100));
    let inside = LayoutRect::new(LayoutPoint::new(10, 10), LayoutSize::new(20, 20));
    let flush = LayoutRect::new(LayoutPoint::new(0, 0), LayoutSize::new(100, 100));
    let spilling = LayoutRect::new(LayoutPoint::new(90, 90), LayoutSize::new(20, 20));
    assert!(a.contains_rect(&inside));
    assert!(a.contains_rect(&flush));
    assert!(!a.contains_rect(&spilling));
    assert!(!inside.contains_rect(&a));
}
