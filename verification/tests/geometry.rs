use corten::error::Error;
use corten::iso::{Cuboid, CuboidSpec, Point};

fn spec(length: i32, width: i32, height: i32, ratio: i32) -> CuboidSpec {
    CuboidSpec { length, width, height, ratio }
}

#[test]
fn builds_known_cuboid() {
    let c = Cuboid::new(spec(10, 10, 50, 2)).unwrap();
    assert_eq!(c.texture_size, Point { x: 19, y: 58 });
    assert_eq!(c.lower_south, Point { x: 9, y: 57 });
    assert_eq!(c.lower_east, Point { x: 18, y: 53 });
    assert_eq!(c.lower_west, Point { x: 0, y: 53 });
    assert_eq!(c.lower_north, Point { x: 9, y: 49 });
    assert_eq!(c.upper_south, Point { x: 9, y: 8 });
    assert_eq!(c.upper_east, Point { x: 18, y: 4 });
    assert_eq!(c.upper_west, Point { x: 0, y: 4 });
    assert_eq!(c.upper_north, Point { x: 9, y: 0 });
}

#[test]
fn build_copies_dimensions() {
    let c = Cuboid::new(spec(100, 100, 250, 2)).unwrap();
    assert_eq!(c.length, 100);
    assert_eq!(c.width, 100);
    assert_eq!(c.height, 250);
    assert_eq!(c.ratio, 2);
    assert_eq!(c.texture_size, Point { x: 199, y: 348 });
}

#[test]
fn build_is_deterministic() {
    let a = Cuboid::new(spec(7, 3, 11, 2)).unwrap();
    let b = Cuboid::new(spec(7, 3, 11, 2)).unwrap();
    assert_eq!(a, b);
}

#[test]
fn bounding_box_positive_for_known_specs() {
    for s in [spec(10, 10, 50, 2), spec(100, 100, 250, 2), spec(2, 2, 2, 1)] {
        let c = Cuboid::new(s).unwrap();
        assert!(c.texture_size.x >= 1);
        assert!(c.texture_size.y >= 1);
    }
}

#[test]
fn zero_ratio_is_invalid() {
    assert_eq!(Cuboid::new(spec(10, 10, 50, 0)), Err(Error::InvalidSpec));
}

#[test]
fn non_positive_dimensions_are_invalid() {
    assert_eq!(Cuboid::new(spec(0, 10, 50, 2)), Err(Error::InvalidSpec));
    assert_eq!(Cuboid::new(spec(10, 0, 50, 2)), Err(Error::InvalidSpec));
    assert_eq!(Cuboid::new(spec(10, 10, 0, 2)), Err(Error::InvalidSpec));
    assert_eq!(Cuboid::new(spec(-1, 10, 50, 2)), Err(Error::InvalidSpec));
    assert_eq!(Cuboid::new(spec(10, 10, 50, -2)), Err(Error::InvalidSpec));
}

#[test]
fn minimal_cuboid_builds() {
    // All dimensions 1 at ratio 1: a single-column silhouette.
    let c = Cuboid::new(spec(1, 1, 1, 1)).unwrap();
    assert_eq!(c.texture_size, Point { x: 1, y: 1 });
    assert_eq!(c.lower_south, Point { x: 0, y: 0 });
}
