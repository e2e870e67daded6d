//! World-space geometry, in fixed integer map units.
//!
//! The windowing layer works in continuous screen coordinates; everything it
//! hands this library is already quantized to integer map units (a map is a
//! few kilometers across, so units of, say, a centimeter lose nothing that
//! hit-testing cares about).

use vstd::prelude::*;

verus! {

/// A point in map space.
#[derive(Clone, Copy, PartialEq, Eq, Structural, Debug)]
pub struct Pt2D {
    pub x: i64,
    pub y: i64,
}

/// An axis-aligned rectangle in map space: the drawn extent of an entity, or
/// the visible viewport.
#[derive(Clone, Copy, PartialEq, Eq, Structural, Debug)]
pub struct Bounds {
    pub min_x: i64,
    pub min_y: i64,
    pub max_x: i64,
    pub max_y: i64,
}

/// Coordinates stay well inside `i64`, so midpoints and spans never overflow.
/// The map layer guarantees this: real maps span a few kilometers.
pub const MAX_COORD: i64 = 0x1000_0000_0000;

impl Pt2D {
    pub open spec fn wf(self) -> bool {
        -MAX_COORD <= self.x <= MAX_COORD && -MAX_COORD <= self.y <= MAX_COORD
    }
}

impl Bounds {
    pub open spec fn wf(self) -> bool {
        &&& self.min_x <= self.max_x
        &&& self.min_y <= self.max_y
        &&& -MAX_COORD <= self.min_x
        &&& self.max_x <= MAX_COORD
        &&& -MAX_COORD <= self.min_y
        &&& self.max_y <= MAX_COORD
    }

    pub open spec fn spec_contains_pt(self, pt: Pt2D) -> bool {
        self.min_x <= pt.x <= self.max_x && self.min_y <= pt.y <= self.max_y
    }

    /// Whether `pt` lies inside this rectangle (borders included).
    pub fn contains_pt(&self, pt: Pt2D) -> (r: bool)
        ensures
            r == self.spec_contains_pt(pt),
    {
        self.min_x <= pt.x && pt.x <= self.max_x && self.min_y <= pt.y && pt.y <= self.max_y
    }

    pub open spec fn spec_overlaps(self, other: Bounds) -> bool {
        self.min_x <= other.max_x && other.min_x <= self.max_x && self.min_y <= other.max_y
            && other.min_y <= self.max_y
    }

    /// Whether the two rectangles share at least one point.
    pub fn overlaps(&self, other: &Bounds) -> (r: bool)
        ensures
            r == self.spec_overlaps(*other),
    {
        self.min_x <= other.max_x && other.min_x <= self.max_x && self.min_y <= other.max_y
            && other.min_y <= self.max_y
    }

    /// The rectangle covering exactly one point.
    pub fn from_pt(pt: Pt2D) -> (r: Bounds)
        ensures
            r == Bounds::spec_from_pt(pt),
    {
        Bounds { min_x: pt.x, min_y: pt.y, max_x: pt.x, max_y: pt.y }
    }

    pub open spec fn spec_from_pt(pt: Pt2D) -> Bounds {
        Bounds { min_x: pt.x, min_y: pt.y, max_x: pt.x, max_y: pt.y }
    }

    /// The smallest rectangle covering this one and `pt`.
    pub fn union_pt(&self, pt: Pt2D) -> (r: Bounds)
        ensures
            r == self.spec_union_pt(pt),
    {
        Bounds {
            min_x: if pt.x < self.min_x { pt.x } else { self.min_x },
            min_y: if pt.y < self.min_y { pt.y } else { self.min_y },
            max_x: if pt.x > self.max_x { pt.x } else { self.max_x },
            max_y: if pt.y > self.max_y { pt.y } else { self.max_y },
        }
    }

    pub open spec fn spec_union_pt(self, pt: Pt2D) -> Bounds {
        Bounds {
            min_x: if pt.x < self.min_x { pt.x } else { self.min_x },
            min_y: if pt.y < self.min_y { pt.y } else { self.min_y },
            max_x: if pt.x > self.max_x { pt.x } else { self.max_x },
            max_y: if pt.y > self.max_y { pt.y } else { self.max_y },
        }
    }

    /// The center of the rectangle, rounded towards the minimum corner.
    pub fn center(&self) -> (r: Pt2D)
        requires
            self.wf(),
        ensures
            r == self.spec_center(),
    {
        Pt2D {
            x: self.min_x + (self.max_x - self.min_x) / 2,
            y: self.min_y + (self.max_y - self.min_y) / 2,
        }
    }

    pub open spec fn spec_center(self) -> Pt2D {
        Pt2D {
            x: (self.min_x + (self.max_x - self.min_x) / 2) as i64,
            y: (self.min_y + (self.max_y - self.min_y) / 2) as i64,
        }
    }
}

/// The smallest rectangle covering every point of a non-empty sequence.
pub open spec fn bbox_of(pts: Seq<Pt2D>) -> Bounds
    recommends
        pts.len() > 0,
    decreases pts.len(),
{
    if pts.len() <= 1 {
        Bounds::spec_from_pt(pts[0])
    } else {
        bbox_of(pts.drop_last()).spec_union_pt(pts.last())
    }
}

/// A connected path through map space: the body of a vehicle, or the stopping
/// trace it will decelerate along. Anchored at its first point.
#[derive(PartialEq, Eq, Debug)]
pub struct PolyLine {
    pub points: Vec<Pt2D>,
}

impl View for PolyLine {
    type V = Seq<Pt2D>;

    open spec fn view(&self) -> Seq<Pt2D> {
        self.points@
    }
}

impl PolyLine {
    /// A polyline joins at least two points, all of them in range.
    pub open spec fn wf(self) -> bool {
        &&& self@.len() >= 2
        &&& forall|i: int| 0 <= i < self@.len() ==> (#[trigger] self@[i]).wf()
    }

    /// The bounding rectangle of the path.
    pub fn get_bounds(&self) -> (r: Bounds)
        requires
            self.points@.len() > 0,
        ensures
            r == bbox_of(self.points@),
    {
        let mut r = Bounds::from_pt(self.points[0]);
        let mut i: usize = 1;
        while i < self.points.len()
            invariant
                1 <= i <= self.points@.len(),
                r == bbox_of(self.points@.take(i as int)),
            decreases self.points@.len() - i,
        {
            r = r.union_pt(self.points[i]);
            proof {
                assert(self.points@.take(i + 1 as int).drop_last() =~= self.points@.take(
                    i as int,
                ));
                assert(self.points@.take(i + 1 as int).last() == self.points@[i as int]);
            }
            i = i + 1;
        }
        proof {
            assert(self.points@.take(self.points@.len() as int) =~= self.points@);
        }
        r
    }
}

impl Clone for PolyLine {
    /// A clone carries exactly the same points.
    fn clone(&self) -> (r: Self)
        ensures
            r@ == self@,
    {
        let mut points: Vec<Pt2D> = Vec::new();
        let mut i: usize = 0;
        while i < self.points.len()
            invariant
                i <= self.points@.len(),
                points@ =~= self.points@.take(i as int),
            decreases self.points@.len() - i,
        {
            points.push(self.points[i]);
            i = i + 1;
        }
        proof {
            assert(points@ =~= self.points@);
        }
        PolyLine { points }
    }
}

/// The geometry of the path a braking car will decelerate along.
pub type Trace = PolyLine;

/// A span of simulation time, in tenths of a second.
#[derive(Clone, Copy, PartialEq, Eq, Structural, Debug)]
pub struct Duration(pub u64);

/// A discrete simulation instant, counted in tenths of a second since the
/// simulation started.
#[derive(Clone, Copy, PartialEq, Eq, Structural, Debug)]
pub struct Tick(pub u64);

impl Tick {
    pub fn from_seconds(s: u64) -> (r: Tick)
        requires
            s <= u64::MAX / 10,
        ensures
            r.0 == s * 10,
    {
        Tick(s * 10)
    }

    /// The amount of time elapsed since the simulation started.
    pub fn as_time(&self) -> (r: Duration)
        ensures
            r.0 == self.0,
    {
        Duration(self.0)
    }
}

} // verus!
