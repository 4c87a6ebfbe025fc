use geom2d::rect::{Rect2, Side2};
use geom2d::vector::{Axis2, Vec2};

#[test]
fn from_offsets_round_trips_through_accessors() {
    let r: Rect2<i32> = Rect2::from_offsets(1, 2, 5, 9);
    assert_eq!(r.x(), 1);
    assert_eq!(r.y(), 2);
    assert_eq!(r.width(), 4);
    assert_eq!(r.height(), 7);
}

#[test]
fn from_components_stores_the_components() {
    let r: Rect2<i32> = Rect2::from_components(1, 2, 3, 4);
    assert_eq!(*r.position(), Vec2(1, 2));
    assert_eq!(*r.size(), Vec2(3, 4));
}

#[test]
fn new_and_setters() {
    let mut r: Rect2<i32> = Rect2::new(Vec2(1, 2), Vec2(3, 4));
    assert_eq!(*r.identity(), r);
    r.set_position(Vec2(-1, -2));
    r.set_size(Vec2(5, 6));
    assert_eq!(r, Rect2(Vec2(-1, -2), Vec2(5, 6)));
    *r.position_mut() = Vec2(7, 8);
    r.size_mut().set_x(9);
    assert_eq!(r, Rect2(Vec2(7, 8), Vec2(9, 6)));
}

#[test]
fn default_is_the_zero_rect() {
    let r: Rect2<i32> = Rect2::default();
    assert_eq!(r, Rect2(Vec2(0, 0), Vec2(0, 0)));
}

#[test]
fn cast_preserves_components() {
    let r: Rect2<i32> = Rect2::from_components(1, -2, 3, 4);
    let c: Rect2<i64> = r.cast();
    assert_eq!(c, Rect2(Vec2(1i64, -2), Vec2(3, 4)));
    let u: Rect2<u64> = Rect2::<u32>::from_components(1, 2, 3, 4).cast();
    assert_eq!(u, Rect2(Vec2(1u64, 2), Vec2(3, 4)));
}

#[test]
fn encompass_points_is_the_tight_bounding_box() {
    let points: Vec<Vec2<i32>> = vec![Vec2(0, 0), Vec2(4, 2), Vec2(1, 5)];
    let r = Rect2::encompass_points(&points);
    assert_eq!(*r.position(), Vec2(0, 0));
    assert_eq!(*r.size(), Vec2(4, 5));
}

#[test]
fn encompass_points_single_point() {
    let points: Vec<Vec2<i32>> = vec![Vec2(-3, 7)];
    let r = Rect2::encompass_points(&points);
    assert_eq!(*r.position(), Vec2(-3, 7));
    assert_eq!(*r.size(), Vec2(0, 0));
}

#[test]
fn vertices_walk_the_corners() {
    let r: Rect2<i32> = Rect2::from_components(1, 1, 3, 2);
    assert_eq!(r.vertex(0), Vec2(1, 1));
    assert_eq!(r.vertex(1), Vec2(4, 1));
    assert_eq!(r.vertex(2), Vec2(4, 3));
    assert_eq!(r.vertex(3), Vec2(1, 3));
    assert_eq!(r.vertex(0), *r.position());
    assert_eq!(r.vertex(2), r.end());
}

#[test]
fn axis_queries_with_x_winning_ties() {
    let wide: Rect2<i32> = Rect2::from_components(0, 0, 5, 2);
    assert_eq!(wide.longest_axis(), Axis2::X);
    assert_eq!(wide.shortest_axis(), Axis2::Y);
    let tall: Rect2<i32> = Rect2::from_components(0, 0, 2, 5);
    assert_eq!(tall.longest_axis(), Axis2::Y);
    assert_eq!(tall.shortest_axis(), Axis2::X);
    let square: Rect2<i32> = Rect2::from_components(0, 0, 3, 3);
    assert_eq!(square.longest_axis(), Axis2::X);
    assert_eq!(square.shortest_axis(), Axis2::X);
}

#[test]
fn axis_length_projects_the_size() {
    let r: Rect2<i32> = Rect2::from_components(9, 9, 5, 2);
    assert_eq!(r.axis_length(Axis2::X), 5);
    assert_eq!(r.axis_length(Axis2::Y), 2);
}

#[test]
fn expand_to_include_moves_origin_and_end_outward() {
    let r: Rect2<i32> = Rect2::from_components(0, 0, 2, 2);
    let grown = r.expand_to_include(Vec2(3, -1));
    assert_eq!(*grown.position(), Vec2(0, -1));
    assert_eq!(*grown.size(), Vec2(3, 3));
    assert_eq!(grown.end(), Vec2(3, 2));
}

#[test]
fn expand_to_include_inside_point_changes_nothing() {
    let r: Rect2<i32> = Rect2::from_components(0, 0, 4, 4);
    let same = r.expand_to_include(Vec2(1, 2));
    assert_eq!(same, r);
}

#[test]
fn grow_side_moves_one_edge() {
    let r: Rect2<i32> = Rect2::from_components(0, 0, 2, 2);
    assert_eq!(r.grow_side(Side2::Top, 1), Rect2(Vec2(0, -1), Vec2(2, 3)));
    assert_eq!(r.grow_side(Side2::Bottom, 1), Rect2(Vec2(0, 0), Vec2(2, 3)));
    assert_eq!(r.grow_side(Side2::Left, 1), Rect2(Vec2(-1, 0), Vec2(3, 2)));
    assert_eq!(r.grow_side(Side2::Right, 1), Rect2(Vec2(0, 0), Vec2(3, 2)));
}

#[test]
fn intersects_touching_edges_depend_on_borders() {
    let a: Rect2<i32> = Rect2::from_components(0, 0, 2, 2);
    let b: Rect2<i32> = Rect2::from_components(2, 0, 2, 2);
    assert!(a.intersects(&b, true));
    assert!(!a.intersects(&b, false));
}

#[test]
fn intersects_overlapping_and_disjoint() {
    let a: Rect2<i32> = Rect2::from_components(0, 0, 4, 4);
    let b: Rect2<i32> = Rect2::from_components(2, 2, 4, 4);
    assert!(a.intersects(&b, true));
    assert!(a.intersects(&b, false));
    let far: Rect2<i32> = Rect2::from_components(10, 10, 1, 1);
    assert!(!a.intersects(&far, true));
    assert!(!a.intersects(&far, false));
    assert!(a.intersects(&a, false));
}

#[test]
fn vector_projections_and_arithmetic() {
    let v: Vec2<i32> = Vec2(3, 4);
    assert_eq!(v.x(), 3);
    assert_eq!(v.y(), 4);
    assert_eq!(v.of_x(), Vec2(3, 0));
    assert_eq!(v.of_y(), Vec2(0, 4));
    assert_eq!(Vec2::on_x(7i32), Vec2(7, 0));
    assert_eq!(Vec2::on_y(7i32), Vec2(0, 7));
    assert_eq!(v.add_v(Vec2(1, -1)), Vec2(4, 3));
    assert_eq!(v.sub_v(Vec2(1, -1)), Vec2(2, 5));
    let mut w = v;
    w.set_x(0);
    w.set_y(1);
    assert_eq!(w, Vec2(0, 1));
    let d: Vec2<i32> = Vec2::default();
    assert_eq!(d, Vec2(0, 0));
    let c: Vec2<i64> = v.cast();
    assert_eq!(c, Vec2(3i64, 4));
}
