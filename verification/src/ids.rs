//! Identity of every selectable entity, static or dynamic.
//!
//! Equality is by kind plus numeric index, so the spatial index and the
//! selection engine address map features and agents through one scheme.

use vstd::prelude::*;

verus! {

#[derive(Clone, Copy, PartialEq, Eq, Structural, Debug)]
pub struct CarID(pub usize);

#[derive(Clone, Copy, PartialEq, Eq, Structural, Debug)]
pub struct PedestrianID(pub usize);

#[derive(Clone, Copy, PartialEq, Eq, Structural, Debug)]
pub struct LaneID(pub usize);

#[derive(Clone, Copy, PartialEq, Eq, Structural, Debug)]
pub struct TurnID(pub usize);

#[derive(Clone, Copy, PartialEq, Eq, Structural, Debug)]
pub struct IntersectionID(pub usize);

#[derive(Clone, Copy, PartialEq, Eq, Structural, Debug)]
pub struct BuildingID(pub usize);

#[derive(Clone, Copy, PartialEq, Eq, Structural, Debug)]
pub struct AreaID(pub usize);

#[derive(Clone, Copy, PartialEq, Eq, Structural, Debug)]
pub struct ExtraShapeID(pub usize);

/// Every kind of entity the cursor can select.
#[derive(Clone, Copy, PartialEq, Eq, Structural, Debug)]
pub enum ID {
    Lane(LaneID),
    Intersection(IntersectionID),
    Turn(TurnID),
    Building(BuildingID),
    Car(CarID),
    Pedestrian(PedestrianID),
    ExtraShape(ExtraShapeID),
    Area(AreaID),
}

/// The unit of space an agent currently occupies: a lane or a turn.
#[derive(Clone, Copy, PartialEq, Eq, Structural, Debug)]
pub enum Traversable {
    Lane(LaneID),
    Turn(TurnID),
}

/// What a lane is built for; decides which subsystem can put cars on it.
#[derive(Clone, Copy, PartialEq, Eq, Structural, Debug)]
pub enum LaneType {
    Driving,
    Parking,
    Sidewalk,
    Biking,
    Bus,
}

#[derive(Clone, Copy, PartialEq, Eq, Structural, Debug)]
pub enum VehicleType {
    Car,
    Bike,
    Bus,
}

} // verus!
