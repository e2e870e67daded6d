//! The per-frame core: viewport culling, cursor-driven selection, and the
//! session state it lives in.
//!
//! Each frame the windowing layer processes input, moves the camera, and then
//! hands this module the updated camera: `UI::event` re-resolves the current
//! selection, and the draw pass asks for the on-screen sets and a color per
//! object. Nothing here suspends, blocks, or mutates simulation state.

use vstd::prelude::*;

use crate::canvas::Canvas;
use crate::geometry::{bbox_of, Bounds, Pt2D};
use crate::ids::{BuildingID, LaneID, ID};
use crate::map_model::{onscreen_of, onscreen_subset, DrawMap, MapModel, ScreenObject};
use crate::objects::{Color, RenderingHints};
use crate::render::{car_views, DrawCarSnapshot, DrawPedestrianInput, GetDrawAgents};
use crate::sim::Sim;

verus! {

/// Mouseover is disabled below this zoom (in hundredths of a screen-pixel
/// per map unit): at low zoom too many tiny, overlapping agents are visible
/// for per-frame hit-testing to stay cheap.
pub const MIN_ZOOM_FOR_MOUSEOVER: u64 = 400;

/// The colors the viewer itself needs; loading and saving the full scheme is
/// the surrounding application's business.
#[derive(Clone, Copy, PartialEq, Eq, Structural, Debug)]
pub struct ColorScheme {
    /// The map background.
    pub background: Color,
    /// The highlight for the currently selected entity.
    pub selected: Color,
}

/// The simulation configuration the current session was loaded with.
pub struct SimFlags {
    /// The scenario or map the simulation was loaded from.
    pub load: String,
    pub rng_seed: Option<u64>,
    pub run_name: String,
}

/// The camera position worth keeping across runs, tied to one map.
pub struct EditorState {
    pub map_name: String,
    pub cam_x: i64,
    pub cam_y: i64,
    pub cam_zoom: u64,
}

/// Everything bound to one loaded map: the map, its derived draw geometry,
/// the live simulation handle, the selection, and the flags the session was
/// loaded with. Switching maps tears the whole group down and rebuilds it.
pub struct PerMapUI {
    pub map: MapModel,
    pub draw_map: DrawMap,
    pub sim: Sim,
    /// The entity currently under the cursor, if any.
    pub current_selection: Option<ID>,
    pub current_flags: SimFlags,
}

impl PerMapUI {
    /// Group freshly loaded per-map state into one session, with no selection
    /// yet. Loading the map and simulation and deriving the draw geometry are
    /// the outside layers' work.
    pub fn new(map: MapModel, draw_map: DrawMap, sim: Sim, flags: SimFlags) -> (r: PerMapUI)
        ensures
            r.map == map,
            r.draw_map == draw_map,
            r.sim == sim,
            r.current_flags == flags,
            r.current_selection is None,
    {
        PerMapUI { map, draw_map, sim, current_selection: None, current_flags: flags }
    }
}

/// The on-screen stand-in for one car: its identity under the bounding
/// rectangle of its body.
pub open spec fn car_object(c: DrawCarSnapshot) -> ScreenObject {
    ScreenObject { id: ID::Car(c.id), bounds: bbox_of(c.body) }
}

/// The on-screen stand-in for one pedestrian: its identity at its position.
pub open spec fn ped_object(p: DrawPedestrianInput) -> ScreenObject {
    ScreenObject { id: ID::Pedestrian(p.id), bounds: Bounds::spec_from_pt(p.pos) }
}

pub open spec fn car_objects(cars: Seq<DrawCarSnapshot>) -> Seq<ScreenObject> {
    cars.map(|i: int, c: DrawCarSnapshot| car_object(c))
}

pub open spec fn ped_objects(peds: Seq<DrawPedestrianInput>) -> Seq<ScreenObject> {
    peds.map(|i: int, p: DrawPedestrianInput| ped_object(p))
}

/// The identity of the first object in `objs` whose geometry contains `pt`.
pub open spec fn first_hit(objs: Seq<ScreenObject>, pt: Pt2D) -> Option<ID>
    decreases objs.len(),
{
    if objs.len() == 0 {
        None
    } else if objs[0].bounds.spec_contains_pt(pt) {
        Some(objs[0].id)
    } else {
        first_hit(objs.drop_first(), pt)
    }
}

/// The top-level UI state: the per-map session, the camera, and the colors.
pub struct UI {
    pub state: PerMapUI,
    pub canvas: Canvas,
    pub cs: ColorScheme,
}

impl UI {
    /// The static entities visible in the current viewport, back-to-front.
    pub open spec fn spec_statics(self) -> Seq<ScreenObject> {
        self.state.draw_map.spec_onscreen(self.canvas.viewport)
    }

    /// The dynamic entities visible in the current viewport: every car the
    /// bridge reports (driving then parking), then every pedestrian.
    pub open spec fn spec_dynamics(self) -> Seq<ScreenObject> {
        onscreen_of(
            car_objects(self.state.sim.spec_all_draw_cars()) + ped_objects(
                self.state.sim.spec_all_draw_peds(),
            ),
            self.canvas.viewport,
        )
    }

    /// The order hit-testing probes the on-screen objects in: dynamic agents
    /// first, then static entities topmost-drawn first.
    pub open spec fn spec_hit_order(self) -> Seq<ScreenObject> {
        self.spec_dynamics() + self.spec_statics().reverse()
    }

    /// What the cursor currently points at.
    pub open spec fn spec_mouseover(self) -> Option<ID> {
        first_hit(self.spec_hit_order(), self.canvas.cursor)
    }

    /// Start a session over freshly loaded per-map state. The camera comes
    /// back from a saved state when it belongs to this map; otherwise it
    /// centers on a landmark: the first building, or failing that the first
    /// lane. A map drawing neither cannot be focused, so the caller rules
    /// that out.
    pub fn new(state: PerMapUI, cs: ColorScheme, saved: Option<EditorState>) -> (ui: UI)
        requires
            (match saved {
                Some(s) => s.map_name@ == state.map.name@,
                None => false,
            }) || state.draw_map.spec_canonical_point(ID::Building(BuildingID(0))) is Some
                || state.draw_map.spec_canonical_point(ID::Lane(LaneID(0))) is Some,
            state.draw_map.wf(),
        ensures
            ui.state == state,
            ui.cs == cs,
            ui.canvas == spec_initial_canvas(saved, state.map.name@, state.draw_map),
    {
        let mut canvas = Canvas::new();
        let mut restored = false;
        match &saved {
            Some(s) => {
                if s.map_name == state.map.name {
                    canvas.cam_x = s.cam_x;
                    canvas.cam_y = s.cam_y;
                    canvas.cam_zoom = s.cam_zoom;
                    restored = true;
                }
            },
            None => {},
        }
        if !restored {
            let focus_pt = match state.draw_map.canonical_point(ID::Building(BuildingID(0))) {
                Some(pt) => pt,
                None => match state.draw_map.canonical_point(ID::Lane(LaneID(0))) {
                    Some(pt) => pt,
                    None => unreached(),
                },
            };
            canvas.center_on_map_pt(focus_pt);
        }
        UI { state, canvas, cs }
    }

    /// Process one frame's input. The windowing layer has already applied
    /// panning and zooming to the camera and hands the result in; the
    /// interactive features have already run and say whether they want the
    /// selection recomputed. This step re-resolves the selection — cleared
    /// when the zoom falls below the mouseover threshold, recomputed when the
    /// cursor moved (not mid-drag, zoomed in enough) or on explicit request —
    /// and opens a fresh hints record for the frame.
    pub fn event(
        &mut self,
        new_canvas: Canvas,
        moved_mouse: bool,
        recalculate_current_selection: bool,
    ) -> (hints: RenderingHints)
        requires
            old(self).state.sim.wf(),
        ensures
            final(self).canvas == new_canvas,
            final(self).cs == old(self).cs,
            final(self).state.map == old(self).state.map,
            final(self).state.draw_map == old(self).state.draw_map,
            final(self).state.sim == old(self).state.sim,
            final(self).state.current_flags == old(self).state.current_flags,
            final(self).state.current_selection == spec_selection_after(
                *old(self),
                new_canvas,
                moved_mouse,
                recalculate_current_selection,
            ),
            hints@ == RenderingHints::spec_new(),
    {
        let hints = RenderingHints::new();

        let old_zoom = self.canvas.cam_zoom;
        self.canvas = new_canvas;
        let new_zoom = self.canvas.cam_zoom;

        if old_zoom >= MIN_ZOOM_FOR_MOUSEOVER && new_zoom < MIN_ZOOM_FOR_MOUSEOVER {
            self.state.current_selection = None;
        }
        if !self.canvas.is_dragging() && moved_mouse && new_zoom >= MIN_ZOOM_FOR_MOUSEOVER {
            let sel = self.mouseover_something();
            self.state.current_selection = sel;
        }
        if recalculate_current_selection {
            let sel = self.mouseover_something();
            self.state.current_selection = sel;
        }

        hints
    }

    /// The two disjoint on-screen collections: static map entities in
    /// back-to-front draw order, and dynamic agents at fresh positions.
    pub fn get_objects_onscreen(&self) -> (r: (Vec<ScreenObject>, Vec<ScreenObject>))
        requires
            self.state.sim.wf(),
        ensures
            r.0@ == self.spec_statics(),
            r.1@ == self.spec_dynamics(),
    {
        let viewport = self.canvas.get_screen_bounds();
        let statics = self.state.draw_map.get_onscreen(viewport);
        let dynamics = dynamic_objects(&self.state.sim, &self.state.map, viewport);
        (statics, dynamics)
    }

    /// The topmost entity under the cursor: dynamic agents are probed first
    /// (in bridge enumeration order), then static entities in reverse draw
    /// order, so whatever draws on top is picked first.
    pub fn mouseover_something(&self) -> (r: Option<ID>)
        requires
            self.state.sim.wf(),
        ensures
            r == self.spec_mouseover(),
    {
        let pt = self.canvas.get_cursor_in_map_space();

        let (statics, dynamics) = self.get_objects_onscreen();

        let ghost statics_view = statics@;
        let mut order = dynamics;
        let mut k: usize = 0;
        while k < statics.len()
            invariant
                k <= statics@.len(),
                statics@ == statics_view,
                order@ =~= self.spec_dynamics() + statics_view.reverse().take(k as int),
            decreases statics@.len() - k,
        {
            order.push(statics[statics.len() - 1 - k]);
            proof {
                assert(statics_view.reverse().take(k + 1 as int).drop_last()
                    =~= statics_view.reverse().take(k as int));
            }
            k = k + 1;
        }
        proof {
            assert(statics_view.reverse().take(statics_view.len() as int)
                =~= statics_view.reverse());
            assert(order@ =~= self.spec_hit_order());
        }

        let ghost all = order@;
        let mut i: usize = 0;
        proof {
            assert(all.skip(0) =~= all);
        }
        while i < order.len()
            invariant
                i <= order@.len(),
                order@ == all,
                first_hit(all, pt) == first_hit(all.skip(i as int), pt),
                pt == self.canvas.cursor,
                all == self.spec_hit_order(),
            decreases order@.len() - i,
        {
            if order[i].bounds.contains_pt(pt) {
                proof {
                    assert(all.skip(i as int)[0] == all[i as int]);
                }
                return Some(order[i].id);
            }
            proof {
                assert(all.skip(i as int).drop_first() =~= all.skip(i + 1 as int));
            }
            i = i + 1;
        }
        proof {
            assert(all.skip(all.len() as int) =~= Seq::<ScreenObject>::empty());
        }
        None
    }

    /// The color the draw pass paints one entity with: the selection
    /// highlight when it is the current selection, otherwise the entity's own
    /// default.
    pub fn color_obj(&self, id: ID) -> (r: Option<Color>)
        ensures
            r == (if self.state.current_selection == Some(id) {
                Some(self.cs.selected)
            } else {
                Option::<Color>::None
            }),
    {
        match self.state.current_selection {
            Some(sel) => {
                if sel == id {
                    Some(self.cs.selected)
                } else {
                    None
                }
            },
            None => None,
        }
    }

    /// The camera state worth keeping across runs, tied to the loaded map.
    /// Writing it to disk is the surrounding application's business.
    pub fn editor_state(&self) -> (r: EditorState)
        ensures
            r.map_name@ == self.state.map.name@,
            r.cam_x == self.canvas.cam_x,
            r.cam_y == self.canvas.cam_y,
            r.cam_zoom == self.canvas.cam_zoom,
    {
        EditorState {
            map_name: self.state.map.get_name().clone(),
            cam_x: self.canvas.cam_x,
            cam_y: self.canvas.cam_y,
            cam_zoom: self.canvas.cam_zoom,
        }
    }

    pub fn get_mut_canvas(&mut self) -> (r: &mut Canvas)
        ensures
            *r == old(self).canvas,
            final(self).canvas == *final(r),
            final(self).state == old(self).state,
            final(self).cs == old(self).cs,
    {
        &mut self.canvas
    }
}

/// The camera a fresh session starts with: the saved one when it belongs to
/// this map, else a default camera centered on a landmark.
pub open spec fn spec_initial_canvas(
    saved: Option<EditorState>,
    map_name: Seq<char>,
    draw_map: DrawMap,
) -> Canvas {
    match saved {
        Some(s) => {
            if s.map_name@ == map_name {
                Canvas { cam_x: s.cam_x, cam_y: s.cam_y, cam_zoom: s.cam_zoom, ..Canvas::spec_new() }
            } else {
                spec_focused_canvas(draw_map)
            }
        },
        None => spec_focused_canvas(draw_map),
    }
}

/// A default camera centered on the first building, or failing that on the
/// first lane.
pub open spec fn spec_focused_canvas(draw_map: DrawMap) -> Canvas {
    let focus = match draw_map.spec_canonical_point(ID::Building(BuildingID(0))) {
        Some(pt) => pt,
        None => match draw_map.spec_canonical_point(ID::Lane(LaneID(0))) {
            Some(pt) => pt,
            None => Pt2D { x: 0, y: 0 },
        },
    };
    Canvas { cam_x: focus.x, cam_y: focus.y, ..Canvas::spec_new() }
}

/// What the current selection is after one frame's input: recomputed under
/// the cursor when the cursor moved (not mid-drag, zoomed in enough) or when
/// a feature asked; cleared when the zoom fell below the mouseover threshold;
/// otherwise kept.
pub open spec fn spec_selection_after(
    ui: UI,
    new_canvas: Canvas,
    moved_mouse: bool,
    recalculate_current_selection: bool,
) -> Option<ID> {
    let updated = UI { canvas: new_canvas, ..ui };
    let crossed_below = ui.canvas.cam_zoom >= MIN_ZOOM_FOR_MOUSEOVER && new_canvas.cam_zoom
        < MIN_ZOOM_FOR_MOUSEOVER;
    let mouse_recompute = !new_canvas.dragging && moved_mouse && new_canvas.cam_zoom
        >= MIN_ZOOM_FOR_MOUSEOVER;
    if recalculate_current_selection || mouse_recompute {
        updated.spec_mouseover()
    } else if crossed_below {
        None
    } else {
        ui.state.current_selection
    }
}

/// A hit names a containing object: `first_hit` answers with the identity of
/// an object whose geometry contains the point, and answers `None` only when
/// no object's geometry contains it.
pub proof fn lemma_first_hit_found(objs: Seq<ScreenObject>, pt: Pt2D)
    ensures
        match first_hit(objs, pt) {
            Some(id) => exists|i: int|
                0 <= i < objs.len() && objs[i].id == id && (
                #[trigger] objs[i]).bounds.spec_contains_pt(pt),
            None => forall|i: int|
                0 <= i < objs.len() ==> !(#[trigger] objs[i]).bounds.spec_contains_pt(pt),
        },
    decreases objs.len(),
{
    if objs.len() > 0 {
        if objs[0].bounds.spec_contains_pt(pt) {
        } else {
            lemma_first_hit_found(objs.drop_first(), pt);
            match first_hit(objs.drop_first(), pt) {
                Some(id) => {
                    let k = choose|k: int|
                        0 <= k < objs.drop_first().len() && objs.drop_first()[k].id == id && objs
                            .drop_first()[k].bounds.spec_contains_pt(pt);
                    assert(objs[k + 1] == objs.drop_first()[k]);
                },
                None => {
                    assert forall|i: int|
                        0 <= i < objs.len() implies !(
                    #[trigger] objs[i]).bounds.spec_contains_pt(pt) by {
                        if i >= 1 {
                            assert(objs.drop_first()[i - 1] == objs[i]);
                        }
                    }
                },
            }
        }
    }
}

/// Probing a concatenation front to back: the front part answers whenever it
/// has any hit at all; only otherwise does the back part answer.
pub proof fn lemma_first_hit_append(a: Seq<ScreenObject>, b: Seq<ScreenObject>, pt: Pt2D)
    ensures
        first_hit(a + b, pt) == (match first_hit(a, pt) {
            Some(id) => Some(id),
            None => first_hit(b, pt),
        }),
    decreases a.len(),
{
    if a.len() == 0 {
        assert(a + b =~= b);
    } else {
        assert((a + b).len() > 0);
        assert((a + b)[0] == a[0]);
        if !a[0].bounds.spec_contains_pt(pt) {
            assert((a + b).drop_first() =~= a.drop_first() + b);
            lemma_first_hit_append(a.drop_first(), b, pt);
        }
    }
}

/// Hit-test priority: whenever any dynamic agent's geometry contains the
/// cursor point — whatever static entities also contain it — the selection
/// engine answers with a dynamic agent's identity.
pub proof fn lemma_hit_prefers_dynamic(ui: UI)
    requires
        exists|i: int|
            0 <= i < ui.spec_dynamics().len() && (
            #[trigger] ui.spec_dynamics()[i]).bounds.spec_contains_pt(ui.canvas.cursor),
    ensures
        exists|i: int|
            0 <= i < ui.spec_dynamics().len() && (
            #[trigger] ui.spec_dynamics()[i]).bounds.spec_contains_pt(ui.canvas.cursor)
                && ui.spec_mouseover() == Some(ui.spec_dynamics()[i].id),
{
    let dynamics = ui.spec_dynamics();
    let pt = ui.canvas.cursor;
    lemma_first_hit_append(dynamics, ui.spec_statics().reverse(), pt);
    lemma_first_hit_found(dynamics, pt);
    match first_hit(dynamics, pt) {
        Some(id) => {
            let k = choose|k: int|
                0 <= k < dynamics.len() && dynamics[k].id == id && dynamics[
                    k
                ].bounds.spec_contains_pt(pt);
            assert(ui.spec_mouseover() == Some(dynamics[k].id));
        },
        None => {},
    }
}

/// Idempotence of the on-screen query: against an unchanged viewport and
/// unchanged holder snapshots, two queries see the identical static sequence
/// and the identical dynamic set, whatever else (cursor, zoom, selection)
/// differs between the frames.
pub proof fn lemma_objects_onscreen_idempotent(ui1: UI, ui2: UI)
    requires
        ui1.state.draw_map.objects@ == ui2.state.draw_map.objects@,
        ui1.state.sim.driving_state@ == ui2.state.sim.driving_state@,
        ui1.state.sim.parking_state@ == ui2.state.sim.parking_state@,
        ui1.state.sim.walking_state@ == ui2.state.sim.walking_state@,
        ui1.canvas.viewport == ui2.canvas.viewport,
    ensures
        ui1.spec_statics() == ui2.spec_statics(),
        ui1.spec_dynamics() == ui2.spec_dynamics(),
{
}

/// Dropping below the mouseover zoom threshold clears the selection whatever
/// the cursor does, as long as no feature explicitly requests a recompute in
/// the same frame.
pub proof fn lemma_zoom_drop_clears_selection(ui: UI, new_canvas: Canvas, moved_mouse: bool)
    requires
        ui.canvas.cam_zoom >= MIN_ZOOM_FOR_MOUSEOVER,
        new_canvas.cam_zoom < MIN_ZOOM_FOR_MOUSEOVER,
    ensures
        spec_selection_after(ui, new_canvas, moved_mouse, false) is None,
{
}

/// The on-screen stand-ins for every dynamic agent the bridge currently
/// reports, culled to the viewport.
fn dynamic_objects(sim: &Sim, map: &MapModel, viewport: Bounds) -> (r: Vec<ScreenObject>)
    requires
        sim.wf(),
    ensures
        r@ == onscreen_of(
            car_objects(sim.spec_all_draw_cars()) + ped_objects(sim.spec_all_draw_peds()),
            viewport,
        ),
{
    let cars = sim.get_all_draw_cars(map);
    let peds = sim.get_all_draw_peds(map);
    let ghost car_snaps = sim.spec_all_draw_cars();

    let mut objs: Vec<ScreenObject> = Vec::new();
    let mut i: usize = 0;
    while i < cars.len()
        invariant
            i <= cars@.len(),
            car_views(cars@) == car_snaps,
            car_snaps == sim.spec_all_draw_cars(),
            sim.wf(),
            objs@ =~= car_objects(car_snaps.take(i as int)),
        decreases cars@.len() - i,
    {
        proof {
            let all = sim.driving_state@ + sim.parking_state@;
            assert(car_snaps == all);
            assert(car_views(cars@).len() == cars@.len());
            assert(car_snaps[i as int] == cars@[i as int]@);
            if i < sim.driving_state@.len() {
                assert(all[i as int] == sim.driving_state@[i as int]);
            } else {
                assert(all[i as int] == sim.parking_state@[
                    i - sim.driving_state@.len()
                ]);
            }
            assert(cars@[i as int]@.body.len() >= 2);
        }
        let bounds = cars[i].body.get_bounds();
        objs.push(ScreenObject { id: ID::Car(cars[i].id), bounds });
        proof {
            assert(objs@ =~= car_objects(car_snaps.take(i + 1 as int)));
        }
        i = i + 1;
    }
    proof {
        assert(car_snaps.take(car_snaps.len() as int) =~= car_snaps);
    }

    let ghost car_part = objs@;
    let mut j: usize = 0;
    while j < peds.len()
        invariant
            j <= peds@.len(),
            peds@ == sim.spec_all_draw_peds(),
            objs@ =~= car_part + ped_objects(peds@.take(j as int)),
            car_part == car_objects(sim.spec_all_draw_cars()),
        decreases peds@.len() - j,
    {
        let pos = peds[j].pos;
        objs.push(ScreenObject { id: ID::Pedestrian(peds[j].id), bounds: Bounds::from_pt(pos) });
        proof {
            assert(objs@ =~= car_part + ped_objects(peds@.take(j + 1 as int)));
        }
        j = j + 1;
    }
    proof {
        assert(peds@.take(peds@.len() as int) =~= peds@);
        assert(objs@ =~= car_objects(sim.spec_all_draw_cars()) + ped_objects(
            sim.spec_all_draw_peds(),
        ));
    }

    onscreen_subset(&objs, viewport)
}

} // verus!
