//! The per-frame rendering hints record.

use sim_viewer::ids::{IntersectionID, LaneID, TurnID};
use sim_viewer::objects::{Color, EventLoopMode, RenderingHints, Text};

#[test]
fn fresh_hints_request_nothing() {
    let h = RenderingHints::new();
    assert_eq!(h.mode, EventLoopMode::InputOnly);
    assert!(h.osd.lines.is_empty());
    assert_eq!(h.suppress_intersection_icon, None);
    assert!(h.color_crosswalks.is_empty());
    assert!(h.hide_crosswalks.is_empty());
    assert!(h.hide_turn_icons.is_empty());
}

#[test]
fn features_write_hints_for_one_frame() {
    let mut h = RenderingHints::new();
    h.request_animation();
    h.suppress_icon(IntersectionID(4));
    h.hide_crosswalk(TurnID(9));
    h.hide_turn_icons_for(LaneID(2));
    assert_eq!(h.mode, EventLoopMode::Animation);
    assert_eq!(h.suppress_intersection_icon, Some(IntersectionID(4)));
    assert_eq!(h.hide_crosswalks, vec![TurnID(9)]);
    assert!(h.hides_turn_icons(LaneID(2)));
    assert!(!h.hides_turn_icons(LaneID(3)));
}

#[test]
fn later_crosswalk_color_wins() {
    let mut h = RenderingHints::new();
    let red = Color::rgb(255, 0, 0);
    let blue = Color::rgb(0, 0, 255);
    h.set_crosswalk_color(TurnID(1), red);
    h.set_crosswalk_color(TurnID(1), blue);
    // The latest write this frame is the one the draw pass sees.
    let last = h
        .color_crosswalks
        .iter()
        .rev()
        .find(|(t, _)| *t == TurnID(1))
        .map(|(_, c)| *c);
    assert_eq!(last, Some(blue));
}

#[test]
fn osd_keeps_lines_in_order() {
    let mut t = Text::new();
    t.add_line(String::from("paused"));
    t.add_line(String::from("tick 25"));
    assert_eq!(t.lines, vec![String::from("paused"), String::from("tick 25")]);
}
