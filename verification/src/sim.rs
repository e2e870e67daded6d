//! The simulation query bridge: one consistent, de-duplicated view of "what
//! is drawable right now", merged from the three subsystem holders.
//!
//! Routing by lane type — instead of asking all three holders — both saves
//! lookups and enforces the exclusivity structurally: a lane is never both a
//! driving and a parking lane, so at most one holder can answer for it.

use vstd::prelude::*;

use crate::geometry::{Duration, Tick};
use crate::holders::{cars_on, first_car_with, first_ped_with, peds_on, DrivingState, ParkingState,
    WalkingState};
use crate::ids::{CarID, LaneID, LaneType, PedestrianID, Traversable};
use crate::map_model::MapModel;
use crate::render::{car_views, CarStatus, DrawCarInput, DrawCarSnapshot, DrawPedestrianInput,
    GetDrawAgents};

verus! {

/// The live simulation handle, as the viewer sees it: the current instant and
/// the three holders' per-tick snapshots.
pub struct Sim {
    pub time: Tick,
    pub driving_state: DrivingState,
    pub parking_state: ParkingState,
    pub walking_state: WalkingState,
}

impl Sim {
    /// Exactly one holder can answer for a car id at one instant: the two car
    /// holders are internally consistent and never share an id.
    pub open spec fn wf(self) -> bool {
        &&& self.driving_state.wf()
        &&& self.parking_state.wf()
        &&& self.walking_state.wf()
        &&& forall|i: int, j: int|
            0 <= i < self.driving_state@.len() && 0 <= j < self.parking_state@.len()
                ==> #[trigger] self.driving_state@[i].id != #[trigger] self.parking_state@[j].id
    }
}

impl GetDrawAgents for Sim {
    open spec fn inv(&self) -> bool {
        self.wf()
    }

    open spec fn spec_time(&self) -> Duration {
        Duration(self.time.0)
    }

    /// The driving holder answers first; the parking holder is the fallback.
    open spec fn spec_draw_car(&self, id: CarID) -> Option<DrawCarSnapshot> {
        match first_car_with(self.driving_state@, id) {
            Some(c) => Some(c),
            None => first_car_with(self.parking_state@, id),
        }
    }

    open spec fn spec_draw_ped(&self, id: PedestrianID) -> Option<DrawPedestrianInput> {
        first_ped_with(self.walking_state@, id)
    }

    /// A lane routes by its type: driving-style lanes to the driving holder,
    /// parking lanes to the parking holder, sidewalks to nobody; a turn
    /// always to the driving holder.
    open spec fn spec_draw_cars(&self, on: Traversable, map: &MapModel) -> Seq<DrawCarSnapshot> {
        match on {
            Traversable::Lane(l) => match map.spec_get_l(l).lane_type {
                LaneType::Driving => cars_on(self.driving_state@, on),
                LaneType::Bus => cars_on(self.driving_state@, on),
                LaneType::Biking => cars_on(self.driving_state@, on),
                LaneType::Parking => cars_on(self.parking_state@, Traversable::Lane(l)),
                LaneType::Sidewalk => Seq::empty(),
            },
            Traversable::Turn(_) => cars_on(self.driving_state@, on),
        }
    }

    open spec fn spec_draw_peds(&self, on: Traversable) -> Seq<DrawPedestrianInput> {
        peds_on(self.walking_state@, on)
    }

    /// The driving holder's full set, then the parking holder's full set; no
    /// finer cross-holder order is promised.
    open spec fn spec_all_draw_cars(&self) -> Seq<DrawCarSnapshot> {
        self.driving_state@ + self.parking_state@
    }

    open spec fn spec_all_draw_peds(&self) -> Seq<DrawPedestrianInput> {
        self.walking_state@
    }

    fn time(&self) -> (r: Duration) {
        self.time.as_time()
    }

    fn get_draw_car(&self, id: CarID, map: &MapModel) -> (r: Option<DrawCarInput>) {
        match self.driving_state.get_draw_car(id, self.time, map) {
            Some(c) => Some(c),
            None => self.parking_state.get_draw_car(id, map),
        }
    }

    fn get_draw_ped(&self, id: PedestrianID, map: &MapModel) -> (r: Option<DrawPedestrianInput>) {
        self.walking_state.get_draw_ped(id, map, self.time)
    }

    fn get_draw_cars(&self, on: Traversable, map: &MapModel) -> (r: Vec<DrawCarInput>) {
        match on {
            Traversable::Lane(l) => {
                let lane_type = map.get_l(l).lane_type;
                match lane_type {
                    LaneType::Driving => self.driving_state.get_draw_cars(on, self.time, map),
                    LaneType::Bus => self.driving_state.get_draw_cars(on, self.time, map),
                    LaneType::Biking => self.driving_state.get_draw_cars(on, self.time, map),
                    LaneType::Parking => self.parking_state.get_draw_cars(l, map),
                    LaneType::Sidewalk => Vec::new(),
                }
            },
            Traversable::Turn(_) => self.driving_state.get_draw_cars(on, self.time, map),
        }
    }

    fn get_draw_peds(&self, on: Traversable, map: &MapModel) -> (r: Vec<DrawPedestrianInput>) {
        self.walking_state.get_draw_peds(on, map, self.time)
    }

    fn get_all_draw_cars(&self, map: &MapModel) -> (r: Vec<DrawCarInput>) {
        let mut cars = self.driving_state.get_all_draw_cars(self.time, map);
        let mut parked = self.parking_state.get_all_draw_cars(map);
        cars.append(&mut parked);
        proof {
            assert(car_views(cars@) =~= self.driving_state@ + self.parking_state@);
        }
        cars
    }

    fn get_all_draw_peds(&self, map: &MapModel) -> (r: Vec<DrawPedestrianInput>) {
        self.walking_state.get_all_draw_peds(self.time, map)
    }
}

/// A found record really sits in the sequence and carries the searched id; a
/// miss means no record carries it.
pub proof fn lemma_first_car_with_found(cars: Seq<DrawCarSnapshot>, id: CarID)
    ensures
        match first_car_with(cars, id) {
            Some(c) => c.id == id && cars.contains(c),
            None => forall|i: int| 0 <= i < cars.len() ==> cars[i].id != id,
        },
    decreases cars.len(),
{
    if cars.len() > 0 {
        if cars[0].id == id {
        } else {
            lemma_first_car_with_found(cars.drop_first(), id);
            match first_car_with(cars.drop_first(), id) {
                Some(c) => {
                    let k = choose|k: int|
                        0 <= k < cars.drop_first().len() && cars.drop_first()[k] == c;
                    assert(cars[k + 1] == c);
                },
                None => {
                    assert forall|i: int| 0 <= i < cars.len() implies cars[i].id != id by {
                        if i >= 1 {
                            assert(cars.drop_first()[i - 1] == cars[i]);
                        }
                    }
                },
            }
        }
    }
}

/// Every car reported for `on` is indeed on `on` and comes from the holder's
/// own records.
pub proof fn lemma_cars_on_members(cars: Seq<DrawCarSnapshot>, on: Traversable)
    ensures
        forall|i: int|
            0 <= i < cars_on(cars, on).len() ==> (#[trigger] cars_on(cars, on)[i]).on == on
                && cars.contains(cars_on(cars, on)[i]),
    decreases cars.len(),
{
    if cars.len() > 0 {
        lemma_cars_on_members(cars.drop_last(), on);
        assert forall|i: int|
            0 <= i < cars_on(cars, on).len() implies (#[trigger] cars_on(cars, on)[i]).on == on
            && cars.contains(cars_on(cars, on)[i]) by {
            let sub = cars_on(cars.drop_last(), on);
            if i < sub.len() {
                assert(sub[i].on == on && cars.drop_last().contains(sub[i]));
                let k = choose|k: int| 0 <= k < cars.drop_last().len() && cars.drop_last()[k] == sub[i];
                assert(cars[k] == sub[i]);
            } else {
                assert(cars_on(cars, on)[i] == cars.last());
            }
        }
    }
}

/// A parked car is reported only by the parking holder: when `draw_car`
/// answers with a parked record, the driving holder does not know the id at
/// all and the record is the parking holder's; and the two holders never both
/// answer for one id at one instant.
pub proof fn lemma_parked_only_from_parking(sim: Sim, id: CarID)
    requires
        sim.wf(),
    ensures
        (match sim.spec_draw_car(id) {
            Some(c) => c.status == CarStatus::Parked,
            None => false,
        }) ==> first_car_with(sim.driving_state@, id) is None && sim.spec_draw_car(id)
            == first_car_with(sim.parking_state@, id),
        !(first_car_with(sim.driving_state@, id) is Some && first_car_with(
            sim.parking_state@,
            id,
        ) is Some),
{
    lemma_first_car_with_found(sim.driving_state@, id);
    lemma_first_car_with_found(sim.parking_state@, id);
    match first_car_with(sim.driving_state@, id) {
        Some(c) => {
            let k = choose|k: int|
                0 <= k < sim.driving_state@.len() && sim.driving_state@[k] == c;
            assert(sim.driving_state@[k].status != CarStatus::Parked);
            match first_car_with(sim.parking_state@, id) {
                Some(p) => {
                    let j = choose|j: int|
                        0 <= j < sim.parking_state@.len() && sim.parking_state@[j] == p;
                    assert(sim.driving_state@[k].id != sim.parking_state@[j].id);
                },
                None => {},
            }
        },
        None => {},
    }
}

/// The bridge never presents duplicates: the merged full set names every car
/// at most once.
pub proof fn lemma_all_draw_cars_deduplicated(sim: Sim)
    requires
        sim.wf(),
    ensures
        forall|i: int, j: int|
            0 <= i < j < sim.spec_all_draw_cars().len() ==> (
            #[trigger] sim.spec_all_draw_cars()[i]).id != (
            #[trigger] sim.spec_all_draw_cars()[j]).id,
{
    let d = sim.driving_state@;
    let p = sim.parking_state@;
    let all = d + p;
    assert forall|i: int, j: int|
        0 <= i < j < all.len() implies (#[trigger] all[i]).id != (#[trigger] all[j]).id by {
        if j < d.len() {
            assert(all[i] == d[i] && all[j] == d[j]);
        } else if i < d.len() {
            assert(all[i] == d[i] && all[j] == p[j - d.len()]);
        } else {
            assert(all[i] == p[i - d.len()] && all[j] == p[j - d.len()]);
        }
    }
}

/// A sidewalk never yields cars, whatever any holder currently contains.
pub proof fn lemma_sidewalk_yields_no_cars(sim: Sim, map: &MapModel, l: LaneID)
    requires
        l.0 < map.lanes@.len(),
        map.spec_get_l(l).lane_type == LaneType::Sidewalk,
    ensures
        sim.spec_draw_cars(Traversable::Lane(l), map) == Seq::<DrawCarSnapshot>::empty(),
{
}

/// On a parking lane the answer is exactly the parking holder's answer for
/// that lane — the driving holder contributes nothing — and every reported
/// car is parked.
pub proof fn lemma_parking_lane_cars(sim: Sim, map: &MapModel, l: LaneID)
    requires
        sim.wf(),
        l.0 < map.lanes@.len(),
        map.spec_get_l(l).lane_type == LaneType::Parking,
    ensures
        sim.spec_draw_cars(Traversable::Lane(l), map) == cars_on(
            sim.parking_state@,
            Traversable::Lane(l),
        ),
        forall|i: int|
            0 <= i < sim.spec_draw_cars(Traversable::Lane(l), map).len() ==> (
            #[trigger] sim.spec_draw_cars(Traversable::Lane(l), map)[i]).status
                == CarStatus::Parked,
{
    lemma_cars_on_members(sim.parking_state@, Traversable::Lane(l));
    let r = cars_on(sim.parking_state@, Traversable::Lane(l));
    assert forall|i: int| 0 <= i < r.len() implies (#[trigger] r[i]).status == CarStatus::Parked by {
        let k = choose|k: int|
            0 <= k < sim.parking_state@.len() && sim.parking_state@[k] == r[i];
        assert(sim.parking_state@[k].status == CarStatus::Parked);
    }
}

} // verus!
