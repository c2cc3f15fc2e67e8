//! The screen abstraction: input events, the drawing commands a screen
//! emits, and the `Screen` trait that every screen variant implements.
//!
//! A screen draws by returning a display list of `DrawOp` commands; the
//! caller rasterizes them onto the panel. This keeps the render pipeline
//! variant-agnostic: a new screen only implements `Screen`.
use vstd::prelude::*;

use crate::state::State;
use crate::state::StateV;

verus! {

/// Encoder-sourced input events routed to the active screen.
pub enum InputEvent {
    EncoderCW,
    EncoderCCW,
    EncoderBT,
}

/// The monospace fonts the screens draw text with.
#[derive(Clone, Copy, PartialEq, Eq, Structural, Debug)]
pub enum FontId {
    Font6x10,
    Font7x13,
    Font7x13Bold,
}

/// Horizontal anchoring of a text run at its x coordinate.
#[derive(Clone, Copy, PartialEq, Eq, Structural, Debug)]
pub enum Align {
    Left,
    Right,
}

/// One drawing command of a screen's display list. `shade` is the 4-bit
/// grayscale intensity handed on to the panel.
pub enum DrawOp {
    Text { content: String, x: i32, y: i32, font: FontId, align: Align, shade: u8 },
    Line { x0: i32, y0: i32, x1: i32, y1: i32, shade: u8 },
    Rect { x: i32, y: i32, w: u32, h: u32, shade: u8 },
}

/// The mathematical form of one drawing command.
pub enum OpV {
    Text { content: Seq<char>, x: int, y: int, font: FontId, align: Align, shade: u8 },
    Line { x0: int, y0: int, x1: int, y1: int, shade: u8 },
    Rect { x: int, y: int, w: int, h: int, shade: u8 },
}

impl View for DrawOp {
    type V = OpV;

    open spec fn view(&self) -> OpV {
        match self {
            DrawOp::Text { content, x, y, font, align, shade } => OpV::Text {
                content: content@,
                x: *x as int,
                y: *y as int,
                font: *font,
                align: *align,
                shade: *shade,
            },
            DrawOp::Line { x0, y0, x1, y1, shade } => OpV::Line {
                x0: *x0 as int,
                y0: *y0 as int,
                x1: *x1 as int,
                y1: *y1 as int,
                shade: *shade,
            },
            DrawOp::Rect { x, y, w, h, shade } => OpV::Rect {
                x: *x as int,
                y: *y as int,
                w: *w as int,
                h: *h as int,
                shade: *shade,
            },
        }
    }
}

/// The mathematical form of a display list.
pub open spec fn ops_view(ops: Seq<DrawOp>) -> Seq<OpV> {
    ops.map_values(|op: DrawOp| op@)
}

/// A drawable, updatable screen variant. The render pipeline only relies
/// on this interface, so further variants plug in without touching it.
pub trait Screen: Sized {
    /// The display list this screen emits for snapshot `s`.
    spec fn spec_draw(self, s: StateV) -> Seq<OpV>;

    /// The screen state and the forced-redraw answer of one update tick
    /// given the previous snapshot, the current one, and the elapsed time.
    spec fn spec_update(self, prev: StateV, cur: StateV, elapsed: u64) -> (Self, bool);

    /// Emits the display list for the given application state.
    fn draw(&self, state: &State) -> (ops: Vec<DrawOp>)
        ensures
            ops_view(ops@) == self.spec_draw(state@),
    ;

    /// Advances the screen's transient substate by one tick and reports
    /// whether the screen asks for a redraw independent of state diffing.
    fn update(&mut self, prev_state: &State, state: &State, time_passed: u64) -> (redraw: bool)
        ensures
            *final(self) == old(self).spec_update(prev_state@, state@, time_passed).0,
            redraw == old(self).spec_update(prev_state@, state@, time_passed).1,
    ;

    /// Routes an encoder-sourced input event to the screen.
    fn handle_event(&self, state: &State, input: InputEvent);
}

} // verus!
