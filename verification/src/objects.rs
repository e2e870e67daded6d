//! Per-frame rendering hints: the scratch record interactive features write
//! and the draw pass consumes exactly once.

use vstd::prelude::*;

use crate::ids::{IntersectionID, LaneID, TurnID};

verus! {

/// An opaque RGBA color, 8 bits per channel.
#[derive(Clone, Copy, PartialEq, Eq, Structural, Debug)]
pub struct Color {
    pub r: u8,
    pub g: u8,
    pub b: u8,
    pub a: u8,
}

impl Color {
    /// A fully opaque color.
    pub fn rgb(r: u8, g: u8, b: u8) -> (c: Color)
        ensures
            c == (Color { r, g, b, a: 255u8 }),
    {
        Color { r, g, b, a: 255 }
    }
}

/// How the event loop should continue after this frame: block until the next
/// input, or keep animating.
#[derive(Clone, Copy, PartialEq, Eq, Structural, Debug)]
pub enum EventLoopMode {
    Animation,
    InputOnly,
}

/// Status text lines overlaid on the drawing.
pub struct Text {
    pub lines: Vec<String>,
}

impl View for Text {
    type V = Seq<Seq<char>>;

    open spec fn view(&self) -> Seq<Seq<char>> {
        self.lines@.map(|i: int, s: String| s@)
    }
}

impl Text {
    pub fn new() -> (t: Text)
        ensures
            t@ == Seq::<Seq<char>>::empty(),
    {
        let t = Text { lines: Vec::new() };
        proof {
            assert(t@ =~= Seq::<Seq<char>>::empty());
        }
        t
    }

    pub fn add_line(&mut self, line: String)
        ensures
            final(self)@ == old(self)@.push(line@),
    {
        let ghost l = line@;
        self.lines.push(line);
        proof {
            assert(self@ =~= old(self)@.push(l));
        }
    }
}

/// The per-frame hints record. Created empty when input processing starts,
/// written by whichever interactive feature wants to influence the next draw,
/// read once by the draw pass, then discarded.
pub struct RenderingHints {
    /// Desired event-loop continuation after this frame.
    pub mode: EventLoopMode,
    /// Overlay status text.
    pub osd: Text,
    /// An intersection whose stop-sign or signal icon the next draw skips.
    pub suppress_intersection_icon: Option<IntersectionID>,
    /// Per-crosswalk color overrides; a later entry for the same crosswalk
    /// wins.
    pub color_crosswalks: Vec<(TurnID, Color)>,
    /// Crosswalks the next draw hides.
    pub hide_crosswalks: Vec<TurnID>,
    /// Lanes whose turn icons the next draw hides.
    pub hide_turn_icons: Vec<LaneID>,
}

/// The override color for crosswalk `t`: the latest one written this frame.
pub open spec fn crosswalk_color_in(entries: Seq<(TurnID, Color)>, t: TurnID) -> Option<Color>
    decreases entries.len(),
{
    if entries.len() == 0 {
        None
    } else if entries.last().0 == t {
        Some(entries.last().1)
    } else {
        crosswalk_color_in(entries.drop_last(), t)
    }
}

impl RenderingHints {
    /// A hints record with nothing requested: block for input, no text, no
    /// suppressed icon, no overrides, nothing hidden.
    pub open spec fn spec_new() -> RenderingHintsView {
        RenderingHintsView {
            mode: EventLoopMode::InputOnly,
            osd: Seq::empty(),
            suppress_intersection_icon: None,
            color_crosswalks: Seq::empty(),
            hide_crosswalks: Seq::empty(),
            hide_turn_icons: Seq::empty(),
        }
    }

    pub fn new() -> (h: RenderingHints)
        ensures
            h@ == RenderingHints::spec_new(),
    {
        let h = RenderingHints {
            mode: EventLoopMode::InputOnly,
            osd: Text::new(),
            suppress_intersection_icon: None,
            color_crosswalks: Vec::new(),
            hide_crosswalks: Vec::new(),
            hide_turn_icons: Vec::new(),
        };
        proof {
            assert(h@ =~= RenderingHints::spec_new());
        }
        h
    }

    /// Override one crosswalk's color for the next draw.
    pub fn set_crosswalk_color(&mut self, t: TurnID, c: Color)
        ensures
            crosswalk_color_in(final(self)@.color_crosswalks, t) == Some(c),
            forall|u: TurnID|
                u != t ==> crosswalk_color_in(final(self)@.color_crosswalks, u)
                    == crosswalk_color_in(old(self)@.color_crosswalks, u),
            final(self)@ == (RenderingHintsView {
                color_crosswalks: final(self)@.color_crosswalks,
                ..old(self)@
            }),
    {
        self.color_crosswalks.push((t, c));
        proof {
            assert(self@.color_crosswalks.last() == (t, c));
            assert(self@.color_crosswalks.drop_last() =~= old(self)@.color_crosswalks);
        }
    }

    /// Hide one crosswalk for the next draw.
    pub fn hide_crosswalk(&mut self, t: TurnID)
        ensures
            final(self)@.hide_crosswalks == old(self)@.hide_crosswalks.push(t),
            final(self)@ == (RenderingHintsView {
                hide_crosswalks: final(self)@.hide_crosswalks,
                ..old(self)@
            }),
    {
        self.hide_crosswalks.push(t);
    }

    /// Hide one lane's turn icons for the next draw.
    pub fn hide_turn_icons_for(&mut self, l: LaneID)
        ensures
            final(self)@.hide_turn_icons == old(self)@.hide_turn_icons.push(l),
            final(self)@ == (RenderingHintsView {
                hide_turn_icons: final(self)@.hide_turn_icons,
                ..old(self)@
            }),
    {
        self.hide_turn_icons.push(l);
    }

    /// Skip one intersection's icon in the next draw.
    pub fn suppress_icon(&mut self, i: IntersectionID)
        ensures
            final(self)@ == (RenderingHintsView {
                suppress_intersection_icon: Some(i),
                ..old(self)@
            }),
    {
        self.suppress_intersection_icon = Some(i);
    }

    /// Ask the event loop to keep animating instead of blocking for input.
    pub fn request_animation(&mut self)
        ensures
            final(self)@ == (RenderingHintsView { mode: EventLoopMode::Animation, ..old(self)@ }),
    {
        self.mode = EventLoopMode::Animation;
    }

    /// Whether the next draw hides this lane's turn icons.
    pub fn hides_turn_icons(&self, l: LaneID) -> (r: bool)
        ensures
            r == self@.hide_turn_icons.contains(l),
    {
        let mut i: usize = 0;
        while i < self.hide_turn_icons.len()
            invariant
                i <= self@.hide_turn_icons.len(),
                forall|j: int| 0 <= j < i ==> self@.hide_turn_icons[j] != l,
            decreases self@.hide_turn_icons.len() - i,
        {
            if self.hide_turn_icons[i] == l {
                return true;
            }
            i = i + 1;
        }
        false
    }
}

/// The mathematical value of a hints record.
pub struct RenderingHintsView {
    pub mode: EventLoopMode,
    pub osd: Seq<Seq<char>>,
    pub suppress_intersection_icon: Option<IntersectionID>,
    pub color_crosswalks: Seq<(TurnID, Color)>,
    pub hide_crosswalks: Seq<TurnID>,
    pub hide_turn_icons: Seq<LaneID>,
}

impl View for RenderingHints {
    type V = RenderingHintsView;

    open spec fn view(&self) -> RenderingHintsView {
        RenderingHintsView {
            mode: self.mode,
            osd: self.osd@,
            suppress_intersection_icon: self.suppress_intersection_icon,
            color_crosswalks: self.color_crosswalks@,
            hide_crosswalks: self.hide_crosswalks@,
            hide_turn_icons: self.hide_turn_icons@,
        }
    }
}

} // verus!
