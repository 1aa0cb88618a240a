use factorish::geometry::{center_pixel, tile_of_pixel, Position, Rotation};

#[test]
fn rotation_cycles() {
    let mut r = Rotation::Left;
    let mut seen = vec![];
    for _ in 0..4 {
        r.next();
        seen.push(r);
    }
    assert_eq!(seen, vec![Rotation::Top, Rotation::Right, Rotation::Bottom, Rotation::Left]);
}

#[test]
fn rotation_deltas_and_angles() {
    assert_eq!(Rotation::Left.delta(), (-1, 0));
    assert_eq!(Rotation::Top.delta(), (0, -1));
    assert_eq!(Rotation::Right.delta(), (1, 0));
    assert_eq!(Rotation::Bottom.delta(), (0, 1));
    assert_eq!(Rotation::Left.delta_inv(), (1, 0));
    assert_eq!(Rotation::Bottom.delta_inv(), (0, -1));
    assert_eq!(Rotation::Left.angle_4(), 2);
    assert_eq!(Rotation::Top.angle_deg(), 270);
    assert_eq!(Rotation::Right.angle_deg(), 0);
}

#[test]
fn position_add() {
    assert_eq!(Position { x: 3, y: 4 }.add((-1, 2)), Position { x: 2, y: 6 });
}

#[test]
fn pixel_tile_conversions() {
    assert_eq!(center_pixel(5), 176);
    assert_eq!(center_pixel(0), 16);
    assert_eq!(tile_of_pixel(176), 5);
    assert_eq!(tile_of_pixel(31), 0);
    assert_eq!(tile_of_pixel(32), 1);
    assert_eq!(tile_of_pixel(-1), -1);
    assert_eq!(tile_of_pixel(-16), -1);
    assert_eq!(tile_of_pixel(-32), -1);
    assert_eq!(tile_of_pixel(-33), -2);
}
