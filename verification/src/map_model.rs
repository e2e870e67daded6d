//! The static map, as the viewer sees it: per-lane metadata for routing
//! queries, and per-entity draw geometry for culling and hit-testing.

use vstd::prelude::*;

use crate::geometry::Bounds;
use crate::ids::{LaneID, LaneType, Traversable, ID};

verus! {

/// The per-lane metadata this core reads: its type, which decides whether the
/// driving holder, the parking holder, or nobody can put cars on it.
#[derive(Clone, Copy, PartialEq, Eq, Structural, Debug)]
pub struct Lane {
    pub id: LaneID,
    pub lane_type: LaneType,
}

/// The loaded map: the lane table, indexed by lane id.
pub struct MapModel {
    pub name: String,
    pub lanes: Vec<Lane>,
}

impl MapModel {
    /// Lane ids are exactly the indices of the lane table.
    pub open spec fn wf(self) -> bool {
        forall|i: int| 0 <= i < self.lanes@.len() ==> (#[trigger] self.lanes@[i]).id == LaneID(
            i as usize,
        )
    }

    pub open spec fn spec_get_l(self, id: LaneID) -> Lane {
        self.lanes@[id.0 as int]
    }

    /// The lane with this id. An id outside the table is the caller's fault.
    pub fn get_l(&self, id: LaneID) -> (r: &Lane)
        requires
            id.0 < self.lanes@.len(),
        ensures
            *r == self.spec_get_l(id),
    {
        &self.lanes[id.0]
    }

    pub fn get_name(&self) -> (r: &String)
        ensures
            r@ == self.name@,
    {
        &self.name
    }
}

impl Traversable {
    /// Whether this path segment refers only to lanes the map knows.
    pub open spec fn valid(self, map: &MapModel) -> bool {
        match self {
            Traversable::Lane(l) => l.0 < map.lanes@.len(),
            Traversable::Turn(_) => true,
        }
    }
}

/// One entity as the spatial index and the selection engine see it: an
/// identity plus the rectangle its drawn geometry covers.
#[derive(Clone, Copy, PartialEq, Eq, Structural, Debug)]
pub struct ScreenObject {
    pub id: ID,
    pub bounds: Bounds,
}

/// The derived draw geometry of the static map: every drawable static entity
/// (lanes, intersections, buildings, areas, extra overlay shapes), in
/// back-to-front draw order — later entries draw on top.
pub struct DrawMap {
    pub objects: Vec<ScreenObject>,
}

impl DrawMap {
    /// The objects whose geometry touches `viewport`, keeping draw order.
    pub open spec fn spec_onscreen(self, viewport: Bounds) -> Seq<ScreenObject> {
        onscreen_of(self.objects@, viewport)
    }

    pub fn get_onscreen(&self, viewport: Bounds) -> (r: Vec<ScreenObject>)
        ensures
            r@ == self.spec_onscreen(viewport),
    {
        onscreen_subset(&self.objects, viewport)
    }

    /// The center of the drawn geometry of the entity `id`, or `None` when
    /// the map draws no such entity. Used to focus the camera on a landmark.
    pub fn canonical_point(&self, id: ID) -> (r: Option<crate::geometry::Pt2D>)
        requires
            self.wf(),
        ensures
            r == self.spec_canonical_point(id),
    {
        let mut i: usize = 0;
        proof {
            assert(self.objects@.skip(0) =~= self.objects@);
        }
        while i < self.objects.len()
            invariant
                i <= self.objects@.len(),
                self.wf(),
                first_with_id(self.objects@, id) == first_with_id(
                    self.objects@.skip(i as int),
                    id,
                ),
            decreases self.objects@.len() - i,
        {
            if self.objects[i].id == id {
                proof {
                    assert(self.objects@.skip(i as int)[0] == self.objects@[i as int]);
                }
                return Some(self.objects[i].bounds.center());
            }
            proof {
                assert(self.objects@.skip(i as int).drop_first() =~= self.objects@.skip(
                    i + 1 as int,
                ));
            }
            i = i + 1;
        }
        proof {
            assert(self.objects@.skip(self.objects@.len() as int) =~= Seq::<
                ScreenObject,
            >::empty());
        }
        None
    }

    pub open spec fn spec_canonical_point(self, id: ID) -> Option<crate::geometry::Pt2D> {
        match first_with_id(self.objects@, id) {
            Some(o) => Some(o.bounds.spec_center()),
            None => None,
        }
    }

    /// Every object's rectangle is a real rectangle in range.
    pub open spec fn wf(self) -> bool {
        forall|i: int| 0 <= i < self.objects@.len() ==> (#[trigger] self.objects@[i]).bounds.wf()
    }
}

/// The subsequence of `objs` whose geometry touches `viewport`, in order.
pub open spec fn onscreen_of(objs: Seq<ScreenObject>, viewport: Bounds) -> Seq<ScreenObject>
    decreases objs.len(),
{
    if objs.len() == 0 {
        Seq::empty()
    } else {
        let rest = onscreen_of(objs.drop_last(), viewport);
        if objs.last().bounds.spec_overlaps(viewport) {
            rest.push(objs.last())
        } else {
            rest
        }
    }
}

/// The objects of `objs` whose geometry touches `viewport`, keeping order.
pub fn onscreen_subset(objs: &Vec<ScreenObject>, viewport: Bounds) -> (r: Vec<ScreenObject>)
    ensures
        r@ == onscreen_of(objs@, viewport),
{
    let mut r: Vec<ScreenObject> = Vec::new();
    let mut i: usize = 0;
    while i < objs.len()
        invariant
            i <= objs@.len(),
            r@ =~= onscreen_of(objs@.take(i as int), viewport),
        decreases objs@.len() - i,
    {
        let o = objs[i];
        if o.bounds.overlaps(&viewport) {
            r.push(o);
        }
        proof {
            assert(objs@.take(i + 1 as int).drop_last() =~= objs@.take(i as int));
            assert(objs@.take(i + 1 as int).last() == objs@[i as int]);
        }
        i = i + 1;
    }
    proof {
        assert(objs@.take(objs@.len() as int) =~= objs@);
    }
    r
}

/// The first object carrying `id`, in sequence order.
pub open spec fn first_with_id(objs: Seq<ScreenObject>, id: ID) -> Option<ScreenObject>
    decreases objs.len(),
{
    if objs.len() == 0 {
        None
    } else if objs[0].id == id {
        Some(objs[0])
    } else {
        first_with_id(objs.drop_first(), id)
    }
}

} // verus!
