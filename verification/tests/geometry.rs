//! Exact values for the geometric helpers hit-testing rests on.

use sim_viewer::geometry::{Bounds, PolyLine, Pt2D};

#[test]
fn polyline_bounding_box() {
    let body = PolyLine {
        points: vec![
            Pt2D { x: 4, y: -2 },
            Pt2D { x: -1, y: 7 },
            Pt2D { x: 3, y: 0 },
        ],
    };
    let b = body.get_bounds();
    assert_eq!(b, Bounds { min_x: -1, min_y: -2, max_x: 4, max_y: 7 });
}

#[test]
fn polyline_clone_keeps_points() {
    let body = PolyLine {
        points: vec![Pt2D { x: 0, y: 0 }, Pt2D { x: 5, y: 5 }],
    };
    assert_eq!(body.clone(), body);
}

#[test]
fn bounds_contains_includes_borders() {
    let b = Bounds { min_x: 0, min_y: 0, max_x: 10, max_y: 10 };
    assert!(b.contains_pt(Pt2D { x: 0, y: 10 }));
    assert!(b.contains_pt(Pt2D { x: 5, y: 5 }));
    assert!(!b.contains_pt(Pt2D { x: 11, y: 5 }));
    assert!(!b.contains_pt(Pt2D { x: 5, y: -1 }));
}

#[test]
fn bounds_overlap_is_symmetric_and_tight() {
    let a = Bounds { min_x: 0, min_y: 0, max_x: 10, max_y: 10 };
    let touching = Bounds { min_x: 10, min_y: 10, max_x: 20, max_y: 20 };
    let apart = Bounds { min_x: 11, min_y: 0, max_x: 20, max_y: 10 };
    assert!(a.overlaps(&touching));
    assert!(touching.overlaps(&a));
    assert!(!a.overlaps(&apart));
    assert!(!apart.overlaps(&a));
}

#[test]
fn bounds_center_rounds_toward_minimum() {
    let b = Bounds { min_x: 0, min_y: 0, max_x: 5, max_y: 5 };
    assert_eq!(b.center(), Pt2D { x: 2, y: 2 });
    let exact = Bounds { min_x: 10, min_y: 10, max_x: 30, max_y: 30 };
    assert_eq!(exact.center(), Pt2D { x: 20, y: 20 });
}
