use clipper_sys::clipper::{
    ClipType_ctDifference, ClipType_ctIntersection, ClipType_ctUnion, ClipType_ctXor,
    EndType_etClosedLine, EndType_etClosedPolygon, EndType_etOpenButt, EndType_etOpenRound,
    EndType_etOpenSquare, JoinType_jtMiter, JoinType_jtRound, JoinType_jtSquare,
    PolyFillType_pftEvenOdd, PolyFillType_pftNegative, PolyFillType_pftNonZero,
    PolyFillType_pftPositive, PolyType_ptClip, PolyType_ptSubject,
};
use clipper_sys::{Path, Polygon, Polygons};

fn square_with_hole() -> Polygon {
    Polygon::new(
        vec![
            Path::new(vec![[240, 200], [190, 200], [190, 150], [240, 150]], 1),
            Path::new(vec![[200, 190], [230, 190], [215, 160]], 1),
        ],
        PolyType_ptSubject,
    )
}

#[test]
fn parameter_codes() {
    assert_eq!(ClipType_ctIntersection, 0);
    assert_eq!(ClipType_ctUnion, 1);
    assert_eq!(ClipType_ctDifference, 2);
    assert_eq!(ClipType_ctXor, 3);
    assert_eq!(JoinType_jtSquare, 0);
    assert_eq!(JoinType_jtRound, 1);
    assert_eq!(JoinType_jtMiter, 2);
    assert_eq!(EndType_etClosedPolygon, 0);
    assert_eq!(EndType_etClosedLine, 1);
    assert_eq!(EndType_etOpenButt, 2);
    assert_eq!(EndType_etOpenSquare, 3);
    assert_eq!(EndType_etOpenRound, 4);
    assert_eq!(PolyType_ptSubject, 0);
    assert_eq!(PolyType_ptClip, 1);
    assert_eq!(PolyFillType_pftEvenOdd, 0);
    assert_eq!(PolyFillType_pftNonZero, 1);
    assert_eq!(PolyFillType_pftPositive, 2);
    assert_eq!(PolyFillType_pftNegative, 3);
}

#[test]
fn path_vertices_give_back_what_was_stored() {
    let p = Path::new(vec![[180, 200], [260, 200], [260, 150], [180, 150]], 1);
    assert_eq!(p.vertices(), &[[180, 200], [260, 200], [260, 150], [180, 150]]);
    assert_eq!(p.vertices_count(), 4);
    let empty = Path::new(vec![], 0);
    assert_eq!(empty.vertices().len(), 0);
    assert_eq!(empty.vertices_count(), 0);
}

#[test]
fn polygon_paths_give_back_what_was_stored() {
    let poly = square_with_hole();
    assert_eq!(poly.paths_count(), 2);
    assert_eq!(poly.paths()[1].vertices(), &[[200, 190], [230, 190], [215, 160]]);
    assert_eq!(poly.type_, PolyType_ptSubject);
}

#[test]
fn polygons_give_back_what_was_stored() {
    let all = Polygons::new(vec![square_with_hole()]);
    assert_eq!(all.polygons_count(), 1);
    assert!(all.polygons()[0] == square_with_hole());
    let none = Polygons::new(vec![]);
    assert_eq!(none.polygons_count(), 0);
    assert_eq!(none.polygons().len(), 0);
}

#[test]
fn path_equality() {
    let a = Path::new(vec![[1, 2], [3, 4]], 1);
    let b = Path::new(vec![[1, 2], [3, 4]], 1);
    assert!(a == b);
    assert!(a.equals(&b));
    // closed flag differs
    assert!(a != Path::new(vec![[1, 2], [3, 4]], 0));
    // one coordinate differs
    assert!(a != Path::new(vec![[1, 2], [3, 5]], 1));
    assert!(a != Path::new(vec![[0, 2], [3, 4]], 1));
    // lengths differ
    assert!(a != Path::new(vec![[1, 2]], 1));
    assert!(a != Path::new(vec![[1, 2], [3, 4], [5, 6]], 1));
    // order matters
    assert!(a != Path::new(vec![[3, 4], [1, 2]], 1));
    assert!(Path::new(vec![], 0) == Path::new(vec![], 0));
}

#[test]
fn polygon_equality() {
    assert!(square_with_hole() == square_with_hole());
    let mut other = square_with_hole();
    other.type_ = PolyType_ptClip;
    assert!(square_with_hole() != other);
    let fewer = Polygon::new(vec![square_with_hole().paths()[0].clone()], PolyType_ptSubject);
    assert!(square_with_hole() != fewer);
    let mut moved = square_with_hole();
    moved.paths[1].vertices[2] = [215, 161];
    assert!(square_with_hole() != moved);
}

#[test]
fn polygons_equality() {
    let a = Polygons::new(vec![square_with_hole(), square_with_hole()]);
    let b = Polygons::new(vec![square_with_hole(), square_with_hole()]);
    assert!(a == b);
    assert!(a != Polygons::new(vec![square_with_hole()]));
    let mut c = Polygons::new(vec![square_with_hole(), square_with_hole()]);
    c.polygons[1].paths[0].closed = 0;
    assert!(a != c);
    assert!(Polygons::new(vec![]) == Polygons::new(vec![]));
}

#[test]
fn equality_is_an_equivalence() {
    let a = Path::new(vec![[7, -7]], 1);
    let b = Path::new(vec![[7, -7]], 1);
    let c = Path::new(vec![[7, -7]], 1);
    let d = Path::new(vec![[7, 7]], 1);
    assert!(a == a);
    assert_eq!(a == b, b == a);
    assert_eq!(a == d, d == a);
    assert!(a == b && b == c && a == c);
    assert!(a == b && b != d && a != d);
}
