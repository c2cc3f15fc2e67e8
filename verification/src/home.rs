//! The home screen: status and track metadata in the normal layout, or a
//! transient volume bar while its overlay countdown is running.
use vstd::prelude::*;
use vstd::string::StringExecFns;

use crate::display;
use crate::display::HEIGHT;
use crate::display::WIDTH;
use crate::fmt;
use crate::screen::Align;
use crate::screen::DrawOp;
use crate::screen::FontId;
use crate::screen::InputEvent;
use crate::screen::OpV;
use crate::screen::Screen;
use crate::screen::ops_view;
use crate::state::PowerSetting;
use crate::state::State;
use crate::state::StateV;

verus! {

/// How long the volume overlay stays up after a volume change.
pub const VOLUME_OVERLAY_MS: u64 = 1000;

/// The home screen's transient substate: the remaining milliseconds of the
/// volume overlay countdown (zero when the normal layout is showing).
#[derive(Clone, Copy, PartialEq, Eq, Structural, Debug)]
pub struct HomeScreen {
    pub volume_timer: u64,
}

impl HomeScreen {
    /// A home screen in the normal layout, with no overlay running.
    pub fn new() -> (s: HomeScreen)
        ensures
            s.volume_timer == 0,
    {
        HomeScreen { volume_timer: 0 }
    }
}

/// The status text for the power setting.
pub open spec fn spec_power_text(p: PowerSetting) -> Seq<char> {
    match p {
        PowerSetting::ON => "ON"@,
        PowerSetting::AUTO => "AUTO"@,
        PowerSetting::OFF => "OFF"@,
    }
}

/// The normal home layout: voltage and wattage on the top line, antenna
/// and power status right-aligned beside them, the truncated track title
/// and artist below, and a full-width rule along the bottom edge.
pub open spec fn spec_home_layout(s: StateV) -> Seq<OpV> {
    seq![
        (OpV::Text {
            content: fmt::spec_milli(s.voltage_mv as nat) + " V"@,
            x: 0,
            y: 9,
            font: FontId::Font6x10,
            align: Align::Left,
            shade: 15,
        }),
        (OpV::Text {
            content: fmt::spec_decimal(((s.voltage_mv * s.current_ma) / 1000000) as nat) + " W"@,
            x: 48,
            y: 9,
            font: FontId::Font6x10,
            align: Align::Left,
            shade: 15,
        }),
        (OpV::Text {
            content: if s.antenna_up {
                "UP"@
            } else {
                "DOWN"@
            },
            x: WIDTH as int - 36,
            y: 9,
            font: FontId::Font6x10,
            align: Align::Right,
            shade: 15,
        }),
        (OpV::Text {
            content: spec_power_text(s.power_setting),
            x: WIDTH as int,
            y: 9,
            font: FontId::Font6x10,
            align: Align::Right,
            shade: 15,
        }),
        (OpV::Text {
            content: display::spec_truncate(s.track_title, 34),
            x: 0,
            y: 32,
            font: FontId::Font7x13Bold,
            align: Align::Left,
            shade: 15,
        }),
        (OpV::Text {
            content: display::spec_truncate(s.track_artist, 40),
            x: 0,
            y: 48,
            font: FontId::Font7x13,
            align: Align::Left,
            shade: 15,
        }),
        (OpV::Line { x0: 0, y0: HEIGHT as int, x1: WIDTH as int, y1: HEIGHT as int, shade: 15 }),
    ]
}

impl Screen for HomeScreen {
    /// The volume bar while the overlay countdown runs, the normal layout
    /// otherwise.
    open spec fn spec_draw(self, s: StateV) -> Seq<OpV> {
        if self.volume_timer > 0 {
            display::spec_bar_ops("VOLUME"@, s.volume, 0, 100, "%"@)
        } else {
            spec_home_layout(s)
        }
    }

    /// A volume change starts (or restarts) the overlay countdown and
    /// forces a redraw. Otherwise the countdown loses the elapsed time,
    /// saturating at zero, and a redraw is forced exactly when the tick
    /// outlives the remaining countdown, so the overlay is taken down
    /// promptly once it expires.
    open spec fn spec_update(self, prev: StateV, cur: StateV, elapsed: u64) -> (Self, bool) {
        if cur.volume != prev.volume {
            (HomeScreen { volume_timer: VOLUME_OVERLAY_MS }, true)
        } else {
            (
                (HomeScreen {
                    volume_timer: if self.volume_timer >= elapsed {
                        (self.volume_timer - elapsed) as u64
                    } else {
                        0u64
                    },
                }),
                self.volume_timer > 0 && elapsed > self.volume_timer,
            )
        }
    }

    fn draw(&self, state: &State) -> (ops: Vec<DrawOp>) {
        if self.volume_timer > 0 {
            return display::draw_bar("VOLUME", state.volume(), 0, 100, "%");
        }
        let mut ops: Vec<DrawOp> = Vec::new();

        let mut vtext = fmt::milli_string(state.voltage());
        vtext.append(" V");
        ops.push(
            DrawOp::Text {
                content: vtext,
                x: 0,
                y: 9,
                font: FontId::Font6x10,
                align: Align::Left,
                shade: 15,
            },
        );

        let mut wtext = fmt::decimal_string(fmt::watts(state.voltage(), state.current()));
        wtext.append(" W");
        ops.push(
            DrawOp::Text {
                content: wtext,
                x: 48,
                y: 9,
                font: FontId::Font6x10,
                align: Align::Left,
                shade: 15,
            },
        );

        let atext = String::from_str(
            if state.antenna_up() {
                "UP"
            } else {
                "DOWN"
            },
        );
        ops.push(
            DrawOp::Text {
                content: atext,
                x: WIDTH - 36,
                y: 9,
                font: FontId::Font6x10,
                align: Align::Right,
                shade: 15,
            },
        );

        let ptext = String::from_str(
            match state.power_setting() {
                PowerSetting::ON => "ON",
                PowerSetting::AUTO => "AUTO",
                PowerSetting::OFF => "OFF",
            },
        );
        ops.push(
            DrawOp::Text {
                content: ptext,
                x: WIDTH,
                y: 9,
                font: FontId::Font6x10,
                align: Align::Right,
                shade: 15,
            },
        );

        ops.push(
            DrawOp::Text {
                content: display::truncate(state.track_title(), 34),
                x: 0,
                y: 32,
                font: FontId::Font7x13Bold,
                align: Align::Left,
                shade: 15,
            },
        );

        ops.push(
            DrawOp::Text {
                content: display::truncate(state.track_artist(), 40),
                x: 0,
                y: 48,
                font: FontId::Font7x13,
                align: Align::Left,
                shade: 15,
            },
        );

        ops.push(DrawOp::Line { x0: 0, y0: HEIGHT, x1: WIDTH, y1: HEIGHT, shade: 15 });

        proof {
            assert(ops_view(ops@) =~~= self.spec_draw(state@));
        }
        ops
    }

    fn update(&mut self, prev_state: &State, state: &State, time_passed: u64) -> (redraw: bool) {
        if state.volume() != prev_state.volume() {
            self.volume_timer = VOLUME_OVERLAY_MS;
            return true;
        }
        let should_update = self.volume_timer > 0 && time_passed > self.volume_timer;
        self.volume_timer = if self.volume_timer >= time_passed {
            self.volume_timer - time_passed
        } else {
            0
        };
        should_update
    }

    fn handle_event(&self, _state: &State, _input: InputEvent) {
    }
}

} // verus!
