use ride_dispatch::position::Position;

#[test]
fn test_new() {
    let pos = Position::new(10, 20);
    assert_eq!(pos.x, 10);
    assert_eq!(pos.y, 20);
}

#[test]
fn test_random() {
    let pos = Position::random();
    assert!(pos.x < 100);
    assert!(pos.y < 100);
}

#[test]
fn test_infinity() {
    let pos = Position::infinity();
    assert_eq!(pos.x, u32::MAX);
    assert_eq!(pos.y, u32::MAX);
}

#[test]
fn test_distance_to() {
    let pos1 = Position::new(10, 20);
    let pos2 = Position::new(15, 30);
    assert_eq!(pos1.distance_to(&pos2), 15);

    let pos3 = Position::new(101, 20);
    assert_eq!(pos1.distance_to(&pos3), u32::MAX);
}

#[test]
fn test_clone() {
    let pos1 = Position::new(10, 20);
    let pos2 = pos1.clone();
    assert_eq!(pos1.x, pos2.x);
    assert_eq!(pos1.y, pos2.y);
}

#[test]
fn test_go_to() {
    let mut pos1 = Position::new(10, 10);
    let pos2 = Position::new(20, 20);
    pos1.go_to(&pos2);

    assert!(pos1.x <= 13 && pos1.x >= 10);
    assert!(pos1.y <= 13 && pos1.y >= 10);
}

#[test]
fn test_simulate() {
    let mut pos = Position::new(50, 50);
    pos.simulate();

    assert!(pos.x <= 100);
    assert!(pos.y <= 100);

    let mut pos_edge = Position::new(0, 100);
    pos_edge.simulate();
    assert!(pos_edge.x <= 100);
    assert!(pos_edge.y <= 100);
}

#[test]
fn distance_is_symmetric_and_triangular() {
    let a = Position::new(3, 7);
    let b = Position::new(40, 2);
    let c = Position::new(100, 100);
    assert_eq!(a.distance_to(&b), b.distance_to(&a));
    assert_eq!(a.distance_to(&b), 42);
    assert!(a.distance_to(&c) <= a.distance_to(&b) + b.distance_to(&c));
    assert_eq!(a.distance_to(&c), 190);
}

#[test]
fn distance_from_infinity_is_max() {
    let a = Position::new(0, 0);
    assert_eq!(a.distance_to(&Position::infinity()), u32::MAX);
    assert_eq!(Position::infinity().distance_to(&a), u32::MAX);
    assert_eq!(Position::new(100, 100).distance_to(&a), 200);
}

#[test]
fn step_toward_caps_at_target() {
    let mut p = Position::new(10, 20);
    p.step_toward(&Position::new(12, 10), 3, 3);
    assert_eq!(p, Position::new(12, 17));
    p.step_toward(&Position::new(12, 10), 0, 0);
    assert_eq!(p, Position::new(12, 17));
}

#[test]
fn drift_clamps_to_grid() {
    let mut p = Position::new(5, 95);
    p.drift(10, -10);
    assert_eq!(p, Position::new(0, 100));
    let mut q = Position::new(50, 50);
    q.drift(-3, 4);
    assert_eq!(q, Position::new(53, 46));
}
