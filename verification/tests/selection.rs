//! The spatial index and the selection engine: viewport culling, hit-test
//! priority, and the zoom-threshold rules.

use sim_viewer::canvas::Canvas;
use sim_viewer::geometry::{Bounds, PolyLine, Pt2D, Tick};
use sim_viewer::holders::{DrivingState, ParkingState, WalkingState};
use sim_viewer::ids::{BuildingID, CarID, LaneID, LaneType, PedestrianID, Traversable, VehicleType, ID};
use sim_viewer::map_model::{DrawMap, Lane, MapModel, ScreenObject};
use sim_viewer::objects::Color;
use sim_viewer::render::{CarStatus, DrawCarInput, DrawPedestrianInput};
use sim_viewer::sim::Sim;
use sim_viewer::ui::{ColorScheme, EditorState, PerMapUI, SimFlags, UI, MIN_ZOOM_FOR_MOUSEOVER};

fn colors() -> ColorScheme {
    ColorScheme {
        background: Color::rgb(242, 239, 233),
        selected: Color::rgb(255, 0, 0),
    }
}

fn flags() -> SimFlags {
    SimFlags {
        load: String::from("montlake"),
        rng_seed: Some(42),
        run_name: String::from("run"),
    }
}

fn car_with_body(id: usize, x1: i64, x2: i64, y: i64) -> DrawCarInput {
    DrawCarInput {
        id: CarID(id),
        waiting_for_turn: None,
        stopping_trace: None,
        status: CarStatus::Moving,
        vehicle_type: VehicleType::Car,
        on: Traversable::Lane(LaneID(0)),
        body: PolyLine {
            points: vec![Pt2D { x: x1, y }, Pt2D { x: x2, y }],
        },
    }
}

fn rect(min_x: i64, min_y: i64, max_x: i64, max_y: i64) -> Bounds {
    Bounds { min_x, min_y, max_x, max_y }
}

/// A session with one building rectangle, one moving car, one pedestrian.
fn session() -> PerMapUI {
    let map = MapModel {
        name: String::from("montlake"),
        lanes: vec![Lane { id: LaneID(0), lane_type: LaneType::Driving }],
    };
    let draw_map = DrawMap {
        objects: vec![
            ScreenObject { id: ID::Lane(LaneID(0)), bounds: rect(0, 0, 100, 100) },
            ScreenObject { id: ID::Building(BuildingID(0)), bounds: rect(10, 10, 30, 30) },
        ],
    };
    let sim = Sim {
        time: Tick(0),
        driving_state: DrivingState { cars: vec![car_with_body(1, 15, 25, 20)] },
        parking_state: ParkingState { cars: vec![] },
        walking_state: WalkingState {
            peds: vec![DrawPedestrianInput {
                id: PedestrianID(2),
                pos: Pt2D { x: 80, y: 80 },
                waiting_for_turn: None,
                preparing_bike: false,
                on: Traversable::Lane(LaneID(0)),
            }],
        },
    };
    PerMapUI::new(map, draw_map, sim, flags())
}

fn ui_with(cursor: Pt2D, cam_zoom: u64) -> UI {
    let mut ui = UI::new(session(), colors(), None);
    let canvas = Canvas {
        cam_zoom,
        cursor,
        dragging: false,
        viewport: rect(0, 0, 200, 200),
        ..*ui.get_mut_canvas()
    };
    *ui.get_mut_canvas() = canvas;
    ui
}

#[test]
fn fresh_session_has_no_selection() {
    let state = session();
    assert_eq!(state.current_selection, None);
}

#[test]
fn objects_onscreen_is_idempotent() {
    let ui = ui_with(Pt2D { x: 20, y: 20 }, 400);
    let (s1, d1) = ui.get_objects_onscreen();
    let (s2, d2) = ui.get_objects_onscreen();
    assert_eq!(s1, s2);
    assert_eq!(d1, d2);
}

#[test]
fn culling_drops_offscreen_objects() {
    let mut ui = ui_with(Pt2D { x: 20, y: 20 }, 400);
    ui.get_mut_canvas().viewport = rect(0, 0, 12, 12);
    let (statics, dynamics) = ui.get_objects_onscreen();
    // Both static rectangles touch the shrunk viewport; the car's body
    // (x 15..25) and the pedestrian (80, 80) do not.
    assert_eq!(statics.len(), 2);
    assert!(dynamics.is_empty());
}

#[test]
fn dynamic_beats_static_under_cursor() {
    // The car's body box (15..25, y 20) and the building (10..30, 10..30)
    // both contain the cursor: the car wins.
    let ui = ui_with(Pt2D { x: 20, y: 20 }, 400);
    assert_eq!(ui.mouseover_something(), Some(ID::Car(CarID(1))));
}

#[test]
fn statics_hit_topmost_drawn_first() {
    // Both the lane (drawn first) and the building (drawn on top) contain
    // the point; no agent does: the building wins.
    let ui = ui_with(Pt2D { x: 12, y: 12 }, 400);
    assert_eq!(ui.mouseover_something(), Some(ID::Building(BuildingID(0))));
}

#[test]
fn pedestrian_is_hit_at_its_position() {
    let ui = ui_with(Pt2D { x: 80, y: 80 }, 400);
    assert_eq!(ui.mouseover_something(), Some(ID::Pedestrian(PedestrianID(2))));
}

#[test]
fn empty_space_selects_nothing() {
    // Zoomed in, cursor over empty space: nothing is selected.
    let mut ui = ui_with(Pt2D { x: 150, y: 150 }, MIN_ZOOM_FOR_MOUSEOVER);
    let canvas = *ui.get_mut_canvas();
    ui.event(canvas, true, false);
    assert_eq!(ui.state.current_selection, None);
}

#[test]
fn moved_mouse_recomputes_selection() {
    let mut ui = ui_with(Pt2D { x: 20, y: 20 }, MIN_ZOOM_FOR_MOUSEOVER);
    let canvas = *ui.get_mut_canvas();
    let hints = ui.event(canvas, true, false);
    assert_eq!(ui.state.current_selection, Some(ID::Car(CarID(1))));
    assert!(hints.osd.lines.is_empty());
    assert_eq!(hints.suppress_intersection_icon, None);
}

#[test]
fn zoom_below_threshold_disables_mouseover() {
    // The cursor sits over the car, but too far zoomed out nothing is picked.
    let mut ui = ui_with(Pt2D { x: 20, y: 20 }, MIN_ZOOM_FOR_MOUSEOVER - 1);
    let canvas = *ui.get_mut_canvas();
    ui.event(canvas, true, false);
    assert_eq!(ui.state.current_selection, None);
}

#[test]
fn zoom_drop_clears_active_selection() {
    // An active selection is forced to None when the zoom falls below the
    // threshold, even though the cursor never moved.
    let mut ui = ui_with(Pt2D { x: 20, y: 20 }, MIN_ZOOM_FOR_MOUSEOVER);
    ui.state.current_selection = Some(ID::Car(CarID(1)));
    let mut canvas = *ui.get_mut_canvas();
    canvas.cam_zoom = MIN_ZOOM_FOR_MOUSEOVER - 1;
    ui.event(canvas, false, false);
    assert_eq!(ui.state.current_selection, None);
}

#[test]
fn drag_suppresses_mouseover() {
    let mut ui = ui_with(Pt2D { x: 20, y: 20 }, MIN_ZOOM_FOR_MOUSEOVER);
    ui.state.current_selection = Some(ID::Building(BuildingID(0)));
    let mut canvas = *ui.get_mut_canvas();
    canvas.dragging = true;
    ui.event(canvas, true, false);
    // Mid-drag the cursor move is ignored; the old selection stays.
    assert_eq!(ui.state.current_selection, Some(ID::Building(BuildingID(0))));
}

#[test]
fn explicit_recompute_overrides_everything() {
    // A feature can request a recompute even without cursor movement.
    let mut ui = ui_with(Pt2D { x: 20, y: 20 }, MIN_ZOOM_FOR_MOUSEOVER);
    let canvas = *ui.get_mut_canvas();
    ui.event(canvas, false, true);
    assert_eq!(ui.state.current_selection, Some(ID::Car(CarID(1))));
}

#[test]
fn color_obj_highlights_only_the_selection() {
    let mut ui = ui_with(Pt2D { x: 20, y: 20 }, 400);
    ui.state.current_selection = Some(ID::Car(CarID(1)));
    assert_eq!(ui.color_obj(ID::Car(CarID(1))), Some(colors().selected));
    assert_eq!(ui.color_obj(ID::Building(BuildingID(0))), None);
    ui.state.current_selection = None;
    assert_eq!(ui.color_obj(ID::Car(CarID(1))), None);
}

#[test]
fn saved_camera_restores_for_matching_map() {
    let saved = EditorState {
        map_name: String::from("montlake"),
        cam_x: 55,
        cam_y: 66,
        cam_zoom: 250,
    };
    let mut ui = UI::new(session(), colors(), Some(saved));
    let canvas = *ui.get_mut_canvas();
    assert_eq!(canvas.cam_x, 55);
    assert_eq!(canvas.cam_y, 66);
    assert_eq!(canvas.cam_zoom, 250);
}

#[test]
fn stale_camera_focuses_on_first_building() {
    let saved = EditorState {
        map_name: String::from("elsewhere"),
        cam_x: 55,
        cam_y: 66,
        cam_zoom: 250,
    };
    let mut ui = UI::new(session(), colors(), Some(saved));
    let canvas = *ui.get_mut_canvas();
    // The first building's rectangle is (10,10)..(30,30); its center is (20,20).
    assert_eq!(canvas.cam_x, 20);
    assert_eq!(canvas.cam_y, 20);
}

#[test]
fn editor_state_snapshots_the_camera() {
    let mut ui = ui_with(Pt2D { x: 0, y: 0 }, 321);
    ui.get_mut_canvas().cam_x = -7;
    ui.get_mut_canvas().cam_y = 9;
    let s = ui.editor_state();
    assert_eq!(s.map_name.as_str(), "montlake");
    assert_eq!(s.cam_x, -7);
    assert_eq!(s.cam_y, 9);
    assert_eq!(s.cam_zoom, 321);
}
