//! The simulation query bridge: routing by lane type, fallback between
//! holders, and full-set merging.

use sim_viewer::geometry::{Duration, PolyLine, Pt2D, Tick};
use sim_viewer::holders::{DrivingState, ParkingState, WalkingState};
use sim_viewer::ids::{CarID, LaneID, LaneType, PedestrianID, Traversable, TurnID, VehicleType};
use sim_viewer::map_model::{Lane, MapModel};
use sim_viewer::render::{CarStatus, DrawCarInput, DrawPedestrianInput, GetDrawAgents};
use sim_viewer::sim::Sim;

fn body_at(x: i64, y: i64) -> PolyLine {
    PolyLine {
        points: vec![Pt2D { x, y }, Pt2D { x: x + 10, y }],
    }
}

fn car(id: usize, status: CarStatus, on: Traversable) -> DrawCarInput {
    DrawCarInput {
        id: CarID(id),
        waiting_for_turn: None,
        stopping_trace: None,
        status,
        vehicle_type: VehicleType::Car,
        on,
        body: body_at(0, 0),
    }
}

fn ped(id: usize, x: i64, y: i64, on: Traversable) -> DrawPedestrianInput {
    DrawPedestrianInput {
        id: PedestrianID(id),
        pos: Pt2D { x, y },
        waiting_for_turn: None,
        preparing_bike: false,
        on,
    }
}

fn map_with(lane_types: Vec<LaneType>) -> MapModel {
    let lanes = lane_types
        .into_iter()
        .enumerate()
        .map(|(i, lane_type)| Lane { id: LaneID(i), lane_type })
        .collect();
    MapModel {
        name: String::from("montlake"),
        lanes,
    }
}

fn sim_with(driving: Vec<DrawCarInput>, parking: Vec<DrawCarInput>, walking: Vec<DrawPedestrianInput>) -> Sim {
    Sim {
        time: Tick(0),
        driving_state: DrivingState { cars: driving },
        parking_state: ParkingState { cars: parking },
        walking_state: WalkingState { peds: walking },
    }
}

#[test]
fn one_parked_car_on_parking_lane() {
    // Scenario: one car parked on a parking lane, nobody driving on it.
    let map = map_with(vec![LaneType::Parking]);
    let on = Traversable::Lane(LaneID(0));
    let sim = sim_with(vec![], vec![car(3, CarStatus::Parked, on)], vec![]);

    let r = sim.get_draw_cars(on, &map);
    assert_eq!(r.len(), 1);
    assert_eq!(r[0].id, CarID(3));
    assert_eq!(r[0].status, CarStatus::Parked);
    assert_eq!(r[0].on, on);
}

#[test]
fn sidewalk_yields_no_cars() {
    // Even when both car holders claim cars on the lane, a sidewalk answers
    // with nothing.
    let map = map_with(vec![LaneType::Sidewalk]);
    let on = Traversable::Lane(LaneID(0));
    let sim = sim_with(
        vec![car(1, CarStatus::Moving, on)],
        vec![car(2, CarStatus::Parked, on)],
        vec![],
    );

    let r = sim.get_draw_cars(on, &map);
    assert!(r.is_empty());
}

#[test]
fn parking_lane_ignores_driving_holder() {
    // A car the driving holder claims to have on the parking lane does not
    // leak into the parking lane's answer.
    let map = map_with(vec![LaneType::Parking]);
    let on = Traversable::Lane(LaneID(0));
    let sim = sim_with(
        vec![car(1, CarStatus::Moving, on)],
        vec![car(2, CarStatus::Parked, on)],
        vec![],
    );

    let r = sim.get_draw_cars(on, &map);
    assert_eq!(r.len(), 1);
    assert_eq!(r[0].id, CarID(2));
    assert_eq!(r[0].status, CarStatus::Parked);
}

#[test]
fn driving_lane_ignores_parking_holder() {
    let map = map_with(vec![LaneType::Driving]);
    let on = Traversable::Lane(LaneID(0));
    let sim = sim_with(
        vec![car(1, CarStatus::Moving, on)],
        vec![car(2, CarStatus::Parked, on)],
        vec![],
    );

    let r = sim.get_draw_cars(on, &map);
    assert_eq!(r.len(), 1);
    assert_eq!(r[0].id, CarID(1));
}

#[test]
fn turn_queries_driving_holder() {
    let map = map_with(vec![LaneType::Driving]);
    let on = Traversable::Turn(TurnID(7));
    let sim = sim_with(vec![car(1, CarStatus::Stuck, on)], vec![], vec![]);

    let r = sim.get_draw_cars(on, &map);
    assert_eq!(r.len(), 1);
    assert_eq!(r[0].id, CarID(1));
    assert_eq!(r[0].status, CarStatus::Stuck);
}

#[test]
fn draw_car_prefers_driving_then_falls_back_to_parking() {
    let map = map_with(vec![LaneType::Driving, LaneType::Parking]);
    let sim = sim_with(
        vec![car(1, CarStatus::Moving, Traversable::Lane(LaneID(0)))],
        vec![car(2, CarStatus::Parked, Traversable::Lane(LaneID(1)))],
        vec![],
    );

    let moving = sim.get_draw_car(CarID(1), &map).unwrap();
    assert_eq!(moving.status, CarStatus::Moving);

    let parked = sim.get_draw_car(CarID(2), &map).unwrap();
    assert_eq!(parked.status, CarStatus::Parked);

    // An id neither holder knows is "not drawable right now", not an error.
    assert!(sim.get_draw_car(CarID(99), &map).is_none());
}

#[test]
fn all_draw_cars_is_driving_then_parking() {
    let map = map_with(vec![LaneType::Driving, LaneType::Parking]);
    let sim = sim_with(
        vec![
            car(1, CarStatus::Moving, Traversable::Lane(LaneID(0))),
            car(2, CarStatus::Stuck, Traversable::Lane(LaneID(0))),
        ],
        vec![car(3, CarStatus::Parked, Traversable::Lane(LaneID(1)))],
        vec![],
    );

    let all = sim.get_all_draw_cars(&map);
    let ids: Vec<CarID> = all.iter().map(|c| c.id).collect();
    assert_eq!(ids, vec![CarID(1), CarID(2), CarID(3)]);
}

#[test]
fn pedestrian_queries_go_to_walking_holder() {
    let map = map_with(vec![LaneType::Sidewalk]);
    let on = Traversable::Lane(LaneID(0));
    let sim = sim_with(vec![], vec![], vec![ped(5, 1, 2, on), ped(6, 3, 4, on)]);

    let one = sim.get_draw_ped(PedestrianID(5), &map).unwrap();
    assert_eq!(one.pos, Pt2D { x: 1, y: 2 });
    assert!(sim.get_draw_ped(PedestrianID(9), &map).is_none());

    let here = sim.get_draw_peds(on, &map);
    assert_eq!(here.len(), 2);

    let all = sim.get_all_draw_peds(&map);
    assert_eq!(all.len(), 2);
    assert_eq!(all[0].id, PedestrianID(5));
    assert_eq!(all[1].id, PedestrianID(6));
}

#[test]
fn time_reports_the_current_tick() {
    let sim = sim_with(vec![], vec![], vec![]);
    assert_eq!(sim.time(), Duration(0));
    assert_eq!(Tick::from_seconds(3).as_time(), Duration(30));

    let later = Sim { time: Tick(25), ..sim };
    assert_eq!(later.time(), Duration(25));
}

#[test]
fn map_lane_lookup() {
    let map = map_with(vec![LaneType::Driving, LaneType::Sidewalk]);
    assert_eq!(map.get_l(LaneID(1)).lane_type, LaneType::Sidewalk);
    assert_eq!(map.get_name().as_str(), "montlake");
}
