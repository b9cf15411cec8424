use corten::iso::{
    block_front, block_side, block_top, classify_visible, corners, corners_hidden,
    corners_visible, edges, edges_hidden, edges_visible, face_back, face_bottom, face_far_side,
    face_front, face_side, face_top, faces, faces_hidden, faces_visible, line_back, line_right,
    line_up, Cuboid, CuboidSpec, Point, SurfaceKind,
};
use corten::scan::Classifier;
use corten::scenes::{shorty, tubby, FacesClassifier, FacesEdgesClassifier};

fn p(x: i32, y: i32) -> Point {
    Point { x, y }
}

fn demo_cuboid() -> Cuboid {
    Cuboid::new(CuboidSpec { length: 10, width: 10, height: 50, ratio: 2 }).unwrap()
}

#[test]
fn line_right_band() {
    let o = p(0, 0);
    assert!(line_right(&o, 4, 2, &p(3, -1)));
    assert!(line_right(&o, 4, 2, &p(0, 0)));
    assert!(!line_right(&o, 4, 2, &p(3, 0)));
    assert!(!line_right(&o, 4, 2, &p(4, -2)));
    assert!(!line_right(&o, 4, 2, &p(-1, 0)));
}

#[test]
fn line_back_band() {
    let o = p(10, 0);
    assert!(line_back(&o, 4, 2, &p(8, -1)));
    assert!(line_back(&o, 4, 2, &p(10, 0)));
    assert!(!line_back(&o, 4, 2, &p(8, 0)));
    assert!(!line_back(&o, 4, 2, &p(6, -2)));
    assert!(!line_back(&o, 4, 2, &p(11, 0)));
}

#[test]
fn line_up_span() {
    let o = p(5, 10);
    assert!(line_up(&o, 3, &p(5, 10)));
    assert!(line_up(&o, 3, &p(5, 8)));
    assert!(!line_up(&o, 3, &p(5, 7)));
    assert!(!line_up(&o, 3, &p(5, 11)));
    assert!(!line_up(&o, 3, &p(4, 9)));
}

#[test]
fn block_interiors() {
    assert!(block_front(&p(5, 10), 4, 3, 1, &p(6, 8)));
    assert!(!block_front(&p(5, 10), 4, 3, 1, &p(5, 8)));
    assert!(block_side(&p(5, 10), 4, 3, 1, &p(4, 8)));
    assert!(!block_side(&p(5, 10), 4, 3, 1, &p(5, 8)));
    assert!(block_top(&p(5, 10), 3, 3, 1, &p(5, 8)));
    assert!(!block_top(&p(5, 10), 3, 3, 1, &p(5, 10)));
}

#[test]
fn corner_is_not_a_face() {
    // The upper-south corner of the demo cuboid classifies as a
    // corner, not a face.
    let c = demo_cuboid();
    let us = p(9, 8);
    assert!(corners_visible(&c, &us));
    assert!(!faces_visible(&c, &us));
}

#[test]
fn corner_queries() {
    let c = demo_cuboid();
    assert!(corners_visible(&c, &p(9, 57)));
    assert!(corners_visible(&c, &p(0, 4)));
    assert!(!corners_visible(&c, &p(9, 49)));
    assert!(corners_hidden(&c, &p(9, 49)));
    assert!(corners(&c, &p(9, 49)));
    assert!(!corners(&c, &p(5, 5)));
}

#[test]
fn edge_queries() {
    let c = demo_cuboid();
    // The vertical south edge runs from the lower south corner upward.
    assert!(edges_visible(&c, &p(9, 20)));
    // The hidden vertical edge sits at the lower north corner.
    assert!(edges_hidden(&c, &p(9, 49)));
    assert!(!edges_visible(&c, &p(5, 30)));
    assert!(edges(&c, &p(9, 20)));
}

#[test]
fn face_queries() {
    let c = demo_cuboid();
    let inside_front = p(10, 30);
    assert!(face_front(&c, &inside_front));
    assert!(!face_side(&c, &inside_front));
    assert!(!face_top(&c, &inside_front));
    assert!(faces_visible(&c, &inside_front));
    assert!(faces(&c, &inside_front));
    let inside_side = p(8, 30);
    assert!(face_side(&c, &inside_side));
    assert!(!face_front(&c, &inside_side));
    // The top face rhombus sits just below the upper north corner.
    assert!(face_top(&c, &p(9, 5)));
    // Hidden faces overlap visible ones in projection: the front-face pixel
    // also lies behind the occluded far-side face, but not the back face or
    // the bottom face.
    assert!(!face_back(&c, &inside_front));
    assert!(face_far_side(&c, &inside_front));
    assert!(!face_bottom(&c, &inside_front));
    assert!(faces_hidden(&c, &inside_front));
}

#[test]
fn priority_order_face_beats_edge() {
    let c = demo_cuboid();
    assert_eq!(classify_visible(&c, &p(10, 30)), SurfaceKind::Face);
    // A corner lies on an edge line, so the edge tier claims it first.
    assert_eq!(classify_visible(&c, &p(9, 8)), SurfaceKind::Edge);
    assert_eq!(classify_visible(&c, &p(0, 0)), SurfaceKind::Background);
}

#[test]
fn shorty_classifies_box() {
    assert_eq!(shorty(10, 30), Some(1));
    assert_eq!(shorty(0, 0), Some(0));
    assert_eq!(shorty(19, 0), None);
    assert_eq!(shorty(0, 58), None);
}

#[test]
fn tubby_classifies_box() {
    assert_eq!(tubby(0, 0), Some(0));
    assert_eq!(tubby(99, 200), Some(2));
    assert_eq!(tubby(100, 200), Some(1));
    assert_eq!(tubby(199, 0), None);
    assert_eq!(tubby(0, 348), None);
}

#[test]
fn scene_classifiers_match_free_functions() {
    let faces = FacesClassifier { cuboid: demo_cuboid() };
    let faces_edges = FacesEdgesClassifier {
        cuboid: Cuboid::new(CuboidSpec { length: 100, width: 100, height: 250, ratio: 2 })
            .unwrap(),
    };
    for (x, y) in [(0u32, 0u32), (10, 30), (9, 8), (25, 60), (1000, 1000)] {
        assert_eq!(faces.classify(x, y), shorty(x, y));
        assert_eq!(faces_edges.classify(x, y), tubby(x, y));
    }
}
