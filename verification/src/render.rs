//! Snapshot records describing one agent at the current instant, and the
//! query interface every simulation hands the viewer.
//!
//! These records are an explicit data contract owned by neither the
//! simulation nor the rendering layer, so the two stay decoupled.

use vstd::prelude::*;

use crate::geometry::{Duration, Pt2D, PolyLine, Trace};
use crate::ids::{CarID, PedestrianID, Traversable, TurnID, VehicleType};
use crate::map_model::MapModel;

verus! {

/// What a car is currently doing; decides its color and who may report it.
#[derive(Clone, Copy, PartialEq, Eq, Structural, Debug)]
pub enum CarStatus {
    Moving,
    Stuck,
    Parked,
    Debug,
}

/// Everything the rendering layer needs to draw one car right now.
#[derive(PartialEq, Eq, Debug)]
pub struct DrawCarInput {
    pub id: CarID,
    /// The turn the car is waiting to execute, if any.
    pub waiting_for_turn: Option<TurnID>,
    /// Geometry of the path the car will decelerate along; present only while
    /// braking.
    pub stopping_trace: Option<Trace>,
    pub status: CarStatus,
    pub vehicle_type: VehicleType,
    pub on: Traversable,
    /// The car's body, anchored at its back.
    pub body: PolyLine,
}

/// The mathematical value of a `DrawCarInput`: the same fields, with each
/// polyline abstracted to its point sequence.
pub struct DrawCarSnapshot {
    pub id: CarID,
    pub waiting_for_turn: Option<TurnID>,
    pub stopping_trace: Option<Seq<Pt2D>>,
    pub status: CarStatus,
    pub vehicle_type: VehicleType,
    pub on: Traversable,
    pub body: Seq<Pt2D>,
}

impl View for DrawCarInput {
    type V = DrawCarSnapshot;

    open spec fn view(&self) -> DrawCarSnapshot {
        DrawCarSnapshot {
            id: self.id,
            waiting_for_turn: self.waiting_for_turn,
            stopping_trace: match self.stopping_trace {
                Some(t) => Some(t@),
                None => None,
            },
            status: self.status,
            vehicle_type: self.vehicle_type,
            on: self.on,
            body: self.body@,
        }
    }
}

impl Clone for DrawCarInput {
    /// A clone describes exactly the same car.
    fn clone(&self) -> (r: Self)
        ensures
            r@ == self@,
    {
        DrawCarInput {
            id: self.id,
            waiting_for_turn: self.waiting_for_turn,
            stopping_trace: match &self.stopping_trace {
                Some(t) => Some(t.clone()),
                None => None,
            },
            status: self.status,
            vehicle_type: self.vehicle_type,
            on: self.on,
            body: self.body.clone(),
        }
    }
}

/// Everything the rendering layer needs to draw one pedestrian right now.
#[derive(Clone, Copy, PartialEq, Eq, Structural, Debug)]
pub struct DrawPedestrianInput {
    pub id: PedestrianID,
    pub pos: Pt2D,
    /// The turn the pedestrian is waiting to execute, if any.
    pub waiting_for_turn: Option<TurnID>,
    /// True when the pedestrian is about to switch to biking.
    pub preparing_bike: bool,
    pub on: Traversable,
}

/// The view of an optional car record.
pub open spec fn opt_car_view(r: Option<DrawCarInput>) -> Option<DrawCarSnapshot> {
    match r {
        Some(c) => Some(c@),
        None => None,
    }
}

/// The views of a batch of car records.
pub open spec fn car_views(cars: Seq<DrawCarInput>) -> Seq<DrawCarSnapshot> {
    cars.map(|i: int, c: DrawCarInput| c@)
}

/// The query interface between a simulation and the viewer: everything the
/// draw pass and the selection engine ever ask of agent state. All queries
/// read an immutable snapshot at one instant and never mutate it.
pub trait GetDrawAgents {
    /// Whether this snapshot's internal bookkeeping is consistent.
    spec fn inv(&self) -> bool;

    /// The authoritative instant all queries of this snapshot answer for.
    spec fn spec_time(&self) -> Duration;

    spec fn spec_draw_car(&self, id: CarID) -> Option<DrawCarSnapshot>;

    spec fn spec_draw_ped(&self, id: PedestrianID) -> Option<DrawPedestrianInput>;

    spec fn spec_draw_cars(&self, on: Traversable, map: &MapModel) -> Seq<DrawCarSnapshot>;

    spec fn spec_draw_peds(&self, on: Traversable) -> Seq<DrawPedestrianInput>;

    spec fn spec_all_draw_cars(&self) -> Seq<DrawCarSnapshot>;

    spec fn spec_all_draw_peds(&self) -> Seq<DrawPedestrianInput>;

    fn time(&self) -> (r: Duration)
        ensures
            r == self.spec_time(),
    ;

    /// The car's current descriptor, or `None` when it is not drawable right
    /// now (not yet spawned, or despawned). Never an error.
    fn get_draw_car(&self, id: CarID, map: &MapModel) -> (r: Option<DrawCarInput>)
        requires
            self.inv(),
        ensures
            opt_car_view(r) == self.spec_draw_car(id),
    ;

    fn get_draw_ped(&self, id: PedestrianID, map: &MapModel) -> (r: Option<DrawPedestrianInput>)
        requires
            self.inv(),
        ensures
            r == self.spec_draw_ped(id),
    ;

    /// Every car currently on `on`. A lane id unknown to the map is the map
    /// layer's fault to guard, not this query's.
    fn get_draw_cars(&self, on: Traversable, map: &MapModel) -> (r: Vec<DrawCarInput>)
        requires
            self.inv(),
            map.wf(),
            on.valid(map),
        ensures
            car_views(r@) == self.spec_draw_cars(on, map),
    ;

    fn get_draw_peds(&self, on: Traversable, map: &MapModel) -> (r: Vec<DrawPedestrianInput>)
        requires
            self.inv(),
        ensures
            r@ == self.spec_draw_peds(on),
    ;

    fn get_all_draw_cars(&self, map: &MapModel) -> (r: Vec<DrawCarInput>)
        requires
            self.inv(),
        ensures
            car_views(r@) == self.spec_all_draw_cars(),
    ;

    fn get_all_draw_peds(&self, map: &MapModel) -> (r: Vec<DrawPedestrianInput>)
        requires
            self.inv(),
        ensures
            r@ == self.spec_all_draw_peds(),
    ;
}

} // verus!
