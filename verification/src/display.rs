//! The render pipeline and the shared drawing helpers: text truncation,
//! the labeled progress bar, and the per-tick redraw decision with its
//! snapshot diffing and 200 ms throttle.
use vstd::prelude::*;
use vstd::string::StrSliceExecFns;
use vstd::string::StringExecFns;

use crate::fmt;
use crate::screen::Align;
use crate::screen::DrawOp;
use crate::screen::FontId;
use crate::screen::OpV;
use crate::screen::Screen;
use crate::screen::ops_view;
use crate::state::ActiveScreen;
use crate::state::State;
use crate::state::StateV;
use crate::state::spec_matches;

verus! {

/// The rightmost pixel column.
pub const WIDTH: i32 = 255;

/// The bottom pixel row.
pub const HEIGHT: i32 = 63;

/// Width in pixels of a progress bar's background.
pub const BAR_W: u32 = 247;

/// Height in pixels of a progress bar.
pub const BAR_H: u32 = 38;

/// Redraws are considered at most once per this many milliseconds.
pub const REDRAW_THROTTLE_MS: u64 = 200;

/// The marker appended to a truncated text.
pub open spec fn spec_ellipsis() -> Seq<char> {
    "..."@
}

/// Truncation to a character budget: a text within the budget is returned
/// unchanged; a longer one is cut to the budget's first characters with the
/// three-character ellipsis marker appended.
pub open spec fn spec_truncate(s: Seq<char>, max_len: nat) -> Seq<char> {
    if s.len() > max_len {
        s.subrange(0, max_len as int) + spec_ellipsis()
    } else {
        s
    }
}

/// Truncates `s` to at most `max_len` characters plus the ellipsis marker.
pub fn truncate(s: String, max_len: usize) -> (r: String)
    ensures
        r@ == spec_truncate(s@, max_len as nat),
{
    let n = s.as_str().unicode_len();
    if n > max_len {
        let cut = s.as_str().substring_char(0, max_len);
        String::from_str(cut).concat("...")
    } else {
        s
    }
}

/// Truncating to the same budget twice gives what truncating once gives:
/// a short text stays unchanged both times, and a truncated text already
/// has exactly the budget's characters before its marker.
pub proof fn lemma_truncate_idempotent(s: Seq<char>, max_len: nat)
    ensures
        spec_truncate(spec_truncate(s, max_len), max_len) == spec_truncate(s, max_len),
{
    reveal_strlit("...");
    if s.len() > max_len {
        assert(spec_truncate(s, max_len).len() == max_len + 3);
        assert(spec_truncate(spec_truncate(s, max_len), max_len) =~= spec_truncate(s, max_len));
    }
}

/// The filled width of a progress bar showing `value` against the range
/// `min..=max`: the bar width scaled by the clamped position in the range,
/// truncated toward zero.
pub open spec fn spec_bar_width(value: u32, min: u32, max: u32) -> int
    recommends
        min < max,
{
    let clamped = if value < min {
        min
    } else if value > max {
        max
    } else {
        value
    };
    (BAR_W as int) * (clamped - min) / (max - min)
}

/// The display list of a labeled progress bar: the label on the left, the
/// value with its unit suffix on the right, the dim full-width background
/// rectangle, and the bright filled rectangle over it.
pub open spec fn spec_bar_ops(
    label: Seq<char>,
    value: u32,
    min: u32,
    max: u32,
    suffix: Seq<char>,
) -> Seq<OpV>
    recommends
        min < max,
{
    seq![
        (OpV::Text {
            content: label,
            x: 4,
            y: 13,
            font: FontId::Font7x13Bold,
            align: Align::Left,
            shade: 15,
        }),
        (OpV::Text {
            content: fmt::spec_decimal(value as nat) + suffix,
            x: WIDTH as int - 4,
            y: 13,
            font: FontId::Font7x13Bold,
            align: Align::Right,
            shade: 15,
        }),
        (OpV::Rect { x: 4, y: 20, w: BAR_W as int, h: BAR_H as int, shade: 4 }),
        (OpV::Rect { x: 4, y: 20, w: spec_bar_width(value, min, max), h: BAR_H as int, shade: 15 }),
    ]
}

/// Builds the display list of a labeled progress bar.
pub fn draw_bar(label: &str, value: u32, min: u32, max: u32, suffix: &str) -> (ops: Vec<DrawOp>)
    requires
        min < max,
    ensures
        ops_view(ops@) == spec_bar_ops(label@, value, min, max, suffix@),
{
    let clamped = if value < min {
        min
    } else if value > max {
        max
    } else {
        value
    };
    let num = (clamped - min) as u64;
    let den = (max - min) as u64;
    proof {
        assert((247 as int) * (num as int) <= 247 * 0xFFFF_FFFF) by (nonlinear_arith)
            requires
                num <= 0xFFFF_FFFF,
        ;
        assert((247 as int) * (num as int) / (den as int) <= 247) by (nonlinear_arith)
            requires
                num <= den,
                0 < den,
        ;
    }
    let bw64 = (BAR_W as u64) * num / den;
    let bw = bw64 as u32;

    let mut ops: Vec<DrawOp> = Vec::new();
    ops.push(
        DrawOp::Text {
            content: String::from_str(label),
            x: 4,
            y: 13,
            font: FontId::Font7x13Bold,
            align: Align::Left,
            shade: 15,
        },
    );
    let mut vtext = fmt::decimal_string(value as u64);
    vtext.append(suffix);
    ops.push(
        DrawOp::Text {
            content: vtext,
            x: WIDTH - 4,
            y: 13,
            font: FontId::Font7x13Bold,
            align: Align::Right,
            shade: 15,
        },
    );
    ops.push(DrawOp::Rect { x: 4, y: 20, w: BAR_W, h: BAR_H, shade: 4 });
    ops.push(DrawOp::Rect { x: 4, y: 20, w: bw, h: BAR_H, shade: 15 });
    proof {
        assert(ops_view(ops@) =~~= spec_bar_ops(label@, value, min, max, suffix@));
    }
    ops
}

/// One update tick of the active screen, dispatched on its variant.
pub open spec fn spec_screen_update(scr: ActiveScreen, prev: StateV, cur: StateV, elapsed: u64) -> (
    ActiveScreen,
    bool,
) {
    match scr {
        ActiveScreen::Home(h) => {
            let (h2, forced) = h.spec_update(prev, cur, elapsed);
            (ActiveScreen::Home(h2), forced)
        },
    }
}

/// The display list of the active screen, dispatched on its variant.
pub open spec fn spec_screen_draw(scr: ActiveScreen, s: StateV) -> Seq<OpV> {
    match scr {
        ActiveScreen::Home(h) => h.spec_draw(s),
    }
}

/// Wrap-safe elapsed milliseconds between two timer readings, so a timer
/// rollover never looks like a huge delta.
pub open spec fn spec_elapsed(now: u64, before: u64) -> u64 {
    vstd::wrapping::u64_specs::wrapping_sub(now, before)
}

/// The render pipeline's bookkeeping: the snapshot rendered for last, and
/// the timestamps of the previous tick and of the previous redraw attempt.
pub struct Display {
    pub last_state: Option<State>,
    pub last_tick_ms: u64,
    pub last_attempt_ms: u64,
}

/// The mathematical form of the pipeline's bookkeeping.
pub struct DisplayV {
    pub last_state: Option<StateV>,
    pub last_tick_ms: u64,
    pub last_attempt_ms: u64,
}

impl View for Display {
    type V = DisplayV;

    open spec fn view(&self) -> DisplayV {
        DisplayV {
            last_state: match self.last_state {
                None => None,
                Some(s) => Some(s@),
            },
            last_tick_ms: self.last_tick_ms,
            last_attempt_ms: self.last_attempt_ms,
        }
    }
}

/// One pipeline tick as a mathematical transition: from the pipeline's
/// bookkeeping, the application state, and the current time, to the new
/// bookkeeping, the new application state (whose active screen the update
/// hook may have advanced), and the display list to rasterize and flush,
/// or `None` when no redraw is due.
///
/// The first tick ever draws unconditionally. A later tick runs the active
/// screen's update hook, then attempts a redraw only once the throttle
/// window has passed since the last attempt, and then draws only if the
/// snapshot changed logically or the hook forced it. The stored snapshot
/// and the tick time are refreshed either way.
pub open spec fn spec_tick(d: DisplayV, s: StateV, now: u64) -> (DisplayV, StateV, Option<
    Seq<OpV>,
>) {
    match d.last_state {
        None => (
            DisplayV { last_state: Some(s), last_tick_ms: now, last_attempt_ms: now },
            s,
            Some(spec_screen_draw(s.current_screen, s)),
        ),
        Some(prev) => {
            let elapsed = spec_elapsed(now, d.last_tick_ms);
            let upd = spec_screen_update(s.current_screen, prev, s, elapsed);
            let cur = StateV { current_screen: upd.0, ..s };
            let attempt = spec_elapsed(now, d.last_attempt_ms) >= REDRAW_THROTTLE_MS;
            let redraw = attempt && (upd.1 || !spec_matches(prev, cur));
            (
                (DisplayV {
                    last_state: Some(cur),
                    last_tick_ms: now,
                    last_attempt_ms: if attempt {
                        now
                    } else {
                        d.last_attempt_ms
                    },
                }),
                cur,
                if redraw {
                    Some(spec_screen_draw(cur.current_screen, cur))
                } else {
                    None
                },
            )
        },
    }
}

impl Display {
    /// A pipeline that has never rendered: its first tick always draws.
    pub fn new() -> (d: Display)
        ensures
            d.last_state is None,
    {
        Display { last_state: None, last_tick_ms: 0, last_attempt_ms: 0 }
    }

    /// One tick of the render pipeline at monotonic time `now_ms`.
    ///
    /// The first tick draws unconditionally. Every later tick first runs
    /// the active screen's update hook (which may mutate the screen's
    /// transient substate inside `state` and request a redraw), then
    /// considers a redraw only once the throttle window has passed since
    /// the last attempt, and then draws only if the snapshot changed
    /// logically or the hook asked for it. The stored snapshot and tick
    /// time are refreshed whether or not anything was drawn.
    ///
    /// Returns the display list to rasterize and flush, or `None` when no
    /// redraw is due.
    pub fn update(&mut self, state: &mut State, now_ms: u64) -> (r: Option<Vec<DrawOp>>)
        ensures
            final(self)@ == spec_tick(old(self)@, old(state)@, now_ms).0,
            final(state)@ == spec_tick(old(self)@, old(state)@, now_ms).1,
            (r is Some) == (spec_tick(old(self)@, old(state)@, now_ms).2 is Some),
            r is Some ==> ops_view(r->Some_0@) == spec_tick(
                old(self)@,
                old(state)@,
                now_ms,
            ).2->Some_0,
    {
        if self.last_state.is_none() {
            let ops = match &state.current_screen {
                ActiveScreen::Home(h) => h.draw(state),
            };
            self.last_state = Some(state.clone());
            self.last_attempt_ms = now_ms;
            self.last_tick_ms = now_ms;
            return Some(ops);
        }

        let elapsed = now_ms.wrapping_sub(self.last_tick_ms);
        let attempt = now_ms.wrapping_sub(self.last_attempt_ms) >= REDRAW_THROTTLE_MS;

        let cur_before = state.clone();
        let forced = if let Some(prev) = &self.last_state {
            match &mut state.current_screen {
                ActiveScreen::Home(h) => h.update(prev, &cur_before, elapsed),
            }
        } else {
            false
        };

        let changed = if let Some(prev) = &self.last_state {
            !prev.matches(state)
        } else {
            true
        };

        let mut r: Option<Vec<DrawOp>> = None;
        if attempt {
            self.last_attempt_ms = now_ms;
            if forced || changed {
                let ops = match &state.current_screen {
                    ActiveScreen::Home(h) => h.draw(state),
                };
                r = Some(ops);
            }
        }
        self.last_state = Some(state.clone());
        self.last_tick_ms = now_ms;
        r
    }
}

/// With no prior rendered snapshot, a pipeline tick draws and flushes the
/// active screen's full display list whatever the time reads.
pub proof fn lemma_first_tick_draws(d: DisplayV, s: StateV, now: u64)
    requires
        d.last_state is None,
    ensures
        spec_tick(d, s, now).2 == Some(spec_screen_draw(s.current_screen, s)),
{
}

/// Two ticks spaced less than the throttle window apart attempt at most
/// one redraw: when the first tick drew, the second draws nothing, however
/// the snapshot changed in between - yet the second tick still replaces
/// the stored snapshot with its own current one.
pub proof fn lemma_throttle_skips_but_records(
    d: DisplayV,
    s1: StateV,
    now1: u64,
    s2: StateV,
    now2: u64,
)
    requires
        spec_tick(d, s1, now1).2 is Some,
        spec_elapsed(now2, now1) < REDRAW_THROTTLE_MS,
    ensures
        spec_tick(spec_tick(d, s1, now1).0, s2, now2).2 is None,
        spec_tick(spec_tick(d, s1, now1).0, s2, now2).0.last_state == Some(
            spec_tick(spec_tick(d, s1, now1).0, s2, now2).1,
        ),
{
}

} // verus!
