//! The three subsystem holders. Each one is exclusively authoritative for one
//! category of agent, and is queried here as an immutable per-tick snapshot:
//! advancing the simulation (which rebuilds these records) is the
//! simulation's own business, not this core's.

use vstd::prelude::*;

use crate::geometry::Tick;
use crate::ids::{CarID, LaneID, PedestrianID, Traversable};
use crate::map_model::MapModel;
use crate::render::{car_views, opt_car_view, CarStatus, DrawCarInput, DrawCarSnapshot,
    DrawPedestrianInput};

verus! {

/// The first car carrying `id`, in enumeration order.
pub open spec fn first_car_with(cars: Seq<DrawCarSnapshot>, id: CarID) -> Option<DrawCarSnapshot>
    decreases cars.len(),
{
    if cars.len() == 0 {
        None
    } else if cars[0].id == id {
        Some(cars[0])
    } else {
        first_car_with(cars.drop_first(), id)
    }
}

/// The cars currently occupying `on`, keeping enumeration order.
pub open spec fn cars_on(cars: Seq<DrawCarSnapshot>, on: Traversable) -> Seq<DrawCarSnapshot>
    decreases cars.len(),
{
    if cars.len() == 0 {
        Seq::empty()
    } else {
        let rest = cars_on(cars.drop_last(), on);
        if cars.last().on == on {
            rest.push(cars.last())
        } else {
            rest
        }
    }
}

/// The first pedestrian carrying `id`, in enumeration order.
pub open spec fn first_ped_with(peds: Seq<DrawPedestrianInput>, id: PedestrianID) -> Option<
    DrawPedestrianInput,
>
    decreases peds.len(),
{
    if peds.len() == 0 {
        None
    } else if peds[0].id == id {
        Some(peds[0])
    } else {
        first_ped_with(peds.drop_first(), id)
    }
}

/// The pedestrians currently occupying `on`, keeping enumeration order.
pub open spec fn peds_on(peds: Seq<DrawPedestrianInput>, on: Traversable) -> Seq<
    DrawPedestrianInput,
>
    decreases peds.len(),
{
    if peds.len() == 0 {
        Seq::empty()
    } else {
        let rest = peds_on(peds.drop_last(), on);
        if peds.last().on == on {
            rest.push(peds.last())
        } else {
            rest
        }
    }
}

/// The holder authoritative for every car in motion (moving, stuck, or being
/// debugged) — never for parked ones.
pub struct DrivingState {
    pub cars: Vec<DrawCarInput>,
}

impl View for DrivingState {
    type V = Seq<DrawCarSnapshot>;

    open spec fn view(&self) -> Seq<DrawCarSnapshot> {
        car_views(self.cars@)
    }
}

impl DrivingState {
    /// No two records describe the same car, none is parked, and every body
    /// is a real polyline.
    pub open spec fn wf(self) -> bool {
        &&& forall|i: int, j: int|
            0 <= i < j < self@.len() ==> #[trigger] self@[i].id != #[trigger] self@[j].id
        &&& forall|i: int| 0 <= i < self@.len() ==> (#[trigger] self@[i]).status != CarStatus::Parked
        &&& forall|i: int| 0 <= i < self@.len() ==> (#[trigger] self@[i]).body.len() >= 2
    }

    pub fn get_draw_car(&self, id: CarID, time: Tick, map: &MapModel) -> (r: Option<DrawCarInput>)
        ensures
            opt_car_view(r) == first_car_with(self@, id),
    {
        get_car_by_id(&self.cars, id)
    }

    pub fn get_draw_cars(&self, on: Traversable, time: Tick, map: &MapModel) -> (r: Vec<
        DrawCarInput,
    >)
        ensures
            car_views(r@) == cars_on(self@, on),
    {
        get_cars_on(&self.cars, on)
    }

    pub fn get_all_draw_cars(&self, time: Tick, map: &MapModel) -> (r: Vec<DrawCarInput>)
        ensures
            car_views(r@) == self@,
    {
        clone_cars(&self.cars)
    }
}

/// The holder authoritative for every parked car.
pub struct ParkingState {
    pub cars: Vec<DrawCarInput>,
}

impl View for ParkingState {
    type V = Seq<DrawCarSnapshot>;

    open spec fn view(&self) -> Seq<DrawCarSnapshot> {
        car_views(self.cars@)
    }
}

impl ParkingState {
    /// No two records describe the same car; every one is parked on a lane
    /// (a turn has no parking concept), with a real polyline for a body.
    pub open spec fn wf(self) -> bool {
        &&& forall|i: int, j: int|
            0 <= i < j < self@.len() ==> #[trigger] self@[i].id != #[trigger] self@[j].id
        &&& forall|i: int| 0 <= i < self@.len() ==> (#[trigger] self@[i]).status == CarStatus::Parked
        &&& forall|i: int| 0 <= i < self@.len() ==> (#[trigger] self@[i]).on is Lane
        &&& forall|i: int| 0 <= i < self@.len() ==> (#[trigger] self@[i]).body.len() >= 2
    }

    pub fn get_draw_car(&self, id: CarID, map: &MapModel) -> (r: Option<DrawCarInput>)
        ensures
            opt_car_view(r) == first_car_with(self@, id),
    {
        get_car_by_id(&self.cars, id)
    }

    /// The cars parked on exactly this lane.
    pub fn get_draw_cars(&self, l: LaneID, map: &MapModel) -> (r: Vec<DrawCarInput>)
        ensures
            car_views(r@) == cars_on(self@, Traversable::Lane(l)),
    {
        get_cars_on(&self.cars, Traversable::Lane(l))
    }

    pub fn get_all_draw_cars(&self, map: &MapModel) -> (r: Vec<DrawCarInput>)
        ensures
            car_views(r@) == self@,
    {
        clone_cars(&self.cars)
    }
}

/// The holder authoritative for every pedestrian.
pub struct WalkingState {
    pub peds: Vec<DrawPedestrianInput>,
}

impl View for WalkingState {
    type V = Seq<DrawPedestrianInput>;

    open spec fn view(&self) -> Seq<DrawPedestrianInput> {
        self.peds@
    }
}

impl WalkingState {
    /// No two records describe the same pedestrian.
    pub open spec fn wf(self) -> bool {
        forall|i: int, j: int|
            0 <= i < j < self@.len() ==> #[trigger] self@[i].id != #[trigger] self@[j].id
    }

    pub fn get_draw_ped(&self, id: PedestrianID, map: &MapModel, time: Tick) -> (r: Option<
        DrawPedestrianInput,
    >)
        ensures
            r == first_ped_with(self@, id),
    {
        let mut i: usize = 0;
        proof {
            assert(self@.skip(0) =~= self@);
        }
        while i < self.peds.len()
            invariant
                i <= self@.len(),
                first_ped_with(self@, id) == first_ped_with(self@.skip(i as int), id),
            decreases self@.len() - i,
        {
            if self.peds[i].id == id {
                proof {
                    assert(self@.skip(i as int)[0] == self@[i as int]);
                }
                return Some(self.peds[i]);
            }
            proof {
                assert(self@.skip(i as int).drop_first() =~= self@.skip(i + 1 as int));
            }
            i = i + 1;
        }
        proof {
            assert(self@.skip(self@.len() as int) =~= Seq::<DrawPedestrianInput>::empty());
        }
        None
    }

    pub fn get_draw_peds(&self, on: Traversable, map: &MapModel, time: Tick) -> (r: Vec<
        DrawPedestrianInput,
    >)
        ensures
            r@ == peds_on(self@, on),
    {
        let mut r: Vec<DrawPedestrianInput> = Vec::new();
        let mut i: usize = 0;
        while i < self.peds.len()
            invariant
                i <= self@.len(),
                r@ =~= peds_on(self@.take(i as int), on),
            decreases self@.len() - i,
        {
            if self.peds[i].on == on {
                r.push(self.peds[i]);
            }
            proof {
                assert(self@.take(i + 1 as int).drop_last() =~= self@.take(i as int));
                assert(self@.take(i + 1 as int).last() == self@[i as int]);
            }
            i = i + 1;
        }
        proof {
            assert(self@.take(self@.len() as int) =~= self@);
        }
        r
    }

    pub fn get_all_draw_peds(&self, time: Tick, map: &MapModel) -> (r: Vec<DrawPedestrianInput>)
        ensures
            r@ == self@,
    {
        let mut r: Vec<DrawPedestrianInput> = Vec::new();
        let mut i: usize = 0;
        while i < self.peds.len()
            invariant
                i <= self@.len(),
                r@ =~= self@.take(i as int),
            decreases self@.len() - i,
        {
            r.push(self.peds[i]);
            i = i + 1;
        }
        proof {
            assert(self@.take(self@.len() as int) =~= self@);
        }
        r
    }
}

/// Linear search for one car's record; hands back a clone of it.
fn get_car_by_id(cars: &Vec<DrawCarInput>, id: CarID) -> (r: Option<DrawCarInput>)
    ensures
        opt_car_view(r) == first_car_with(car_views(cars@), id),
{
    let ghost all = car_views(cars@);
    let mut i: usize = 0;
    proof {
        assert(all.skip(0) =~= all);
    }
    while i < cars.len()
        invariant
            i <= cars@.len(),
            all == car_views(cars@),
            first_car_with(all, id) == first_car_with(all.skip(i as int), id),
        decreases cars@.len() - i,
    {
        if cars[i].id == id {
            proof {
                assert(all.skip(i as int)[0] == all[i as int]);
            }
            return Some(cars[i].clone());
        }
        proof {
            assert(all.skip(i as int).drop_first() =~= all.skip(i + 1 as int));
        }
        i = i + 1;
    }
    proof {
        assert(all.skip(all.len() as int) =~= Seq::<DrawCarSnapshot>::empty());
    }
    None
}

/// Clones of the records of the cars occupying `on`, in enumeration order.
fn get_cars_on(cars: &Vec<DrawCarInput>, on: Traversable) -> (r: Vec<DrawCarInput>)
    ensures
        car_views(r@) == cars_on(car_views(cars@), on),
{
    let ghost all = car_views(cars@);
    let mut r: Vec<DrawCarInput> = Vec::new();
    let mut i: usize = 0;
    while i < cars.len()
        invariant
            i <= cars@.len(),
            all == car_views(cars@),
            car_views(r@) =~= cars_on(all.take(i as int), on),
        decreases cars@.len() - i,
    {
        let ghost prev = car_views(r@);
        if cars[i].on == on {
            r.push(cars[i].clone());
            proof {
                assert(car_views(r@) =~= prev.push(all[i as int]));
            }
        }
        proof {
            assert(all.take(i + 1 as int).drop_last() =~= all.take(i as int));
            assert(all.take(i + 1 as int).last() == all[i as int]);
        }
        i = i + 1;
    }
    proof {
        assert(all.take(all.len() as int) =~= all);
        assert(car_views(r@) =~= cars_on(all, on));
    }
    r
}

/// Clones of every record, in enumeration order.
fn clone_cars(cars: &Vec<DrawCarInput>) -> (r: Vec<DrawCarInput>)
    ensures
        car_views(r@) == car_views(cars@),
{
    let mut r: Vec<DrawCarInput> = Vec::new();
    let mut i: usize = 0;
    while i < cars.len()
        invariant
            i <= cars@.len(),
            car_views(r@) =~= car_views(cars@.take(i as int)),
        decreases cars@.len() - i,
    {
        let ghost prev = car_views(r@);
        r.push(cars[i].clone());
        proof {
            assert(car_views(r@) =~= prev.push(cars@[i as int]@));
            assert(car_views(cars@.take(i + 1 as int)) =~= car_views(cars@.take(i as int)).push(
                cars@[i as int]@,
            ));
        }
        i = i + 1;
    }
    proof {
        assert(cars@.take(cars@.len() as int) =~= cars@);
        assert(car_views(r@) =~= car_views(cars@));
    }
    r
}

} // verus!
