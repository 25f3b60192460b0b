use flappy::geometry::BoxCollision;

fn bx(x1: i128, y1: i128, x2: i128, y2: i128) -> BoxCollision {
    BoxCollision { x1, y1, x2, y2 }
}

#[test]
fn overlapping_boxes_collide() {
    let a = bx(0, 0, 10, 10);
    let b = bx(5, 5, 15, 15);
    assert!(a.check(b));
    assert!(b.check(a));
}

#[test]
fn overlap_is_symmetric() {
    let boxes = [bx(0, 0, 10, 10), bx(10, 0, 20, 10), bx(3, 3, 4, 4), bx(-5, -5, 1, 1), bx(20, 20, 30, 30)];
    for a in boxes.iter() {
        for b in boxes.iter() {
            assert_eq!(a.check(*b), b.check(*a));
        }
    }
}

#[test]
fn shared_edge_does_not_collide() {
    let a = bx(0, 0, 10, 10);
    assert!(!a.check(bx(10, 0, 20, 10)));
    assert!(!a.check(bx(0, 10, 10, 20)));
    assert!(!a.check(bx(-10, 0, 0, 10)));
    assert!(!a.check(bx(0, -10, 10, 0)));
}

#[test]
fn disjoint_boxes_do_not_collide() {
    assert!(!bx(0, 0, 10, 10).check(bx(11, 11, 20, 20)));
}
