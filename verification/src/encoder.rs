//! Quadrature rotary-encoder decoding: debounce of raw pin samples, the
//! Gray-code transition table, and detent/press event detection.
//!
//! The decoder is pure logic over plain values: the caller samples the two
//! quadrature pins and the button pin and hands the readings in; the decoder
//! answers with the events whose registered handlers should run.
use vstd::prelude::*;

verus! {

/// Electrical edges per physical detent of the knob.
pub const EDGES_PER_DETENT: i64 = 2;

/// Signed rotation delta for one transition of the 2-bit pin state
/// (bit 1 = pin A, bit 0 = pin B): +1 for a clockwise Gray-code step,
/// -1 for a counter-clockwise one, 0 for everything else (no change,
/// a skipped state, or an out-of-range reading).
pub open spec fn spec_quad_delta(last: u8, new: u8) -> int {
    if (last == 0b00 && new == 0b01) || (last == 0b01 && new == 0b11)
        || (last == 0b11 && new == 0b10) || (last == 0b10 && new == 0b00) {
        1
    } else if (last == 0b00 && new == 0b10) || (last == 0b10 && new == 0b11)
        || (last == 0b11 && new == 0b01) || (last == 0b01 && new == 0b00) {
        -1int
    } else {
        0
    }
}

/// Looks up `(last, new)` in the Gray-code transition table.
pub fn quad_delta(last: u8, new: u8) -> (d: i8)
    ensures
        d as int == spec_quad_delta(last, new),
{
    match (last, new) {
        (0b00, 0b01) | (0b01, 0b11) | (0b11, 0b10) | (0b10, 0b00) => 1,
        (0b00, 0b10) | (0b10, 0b11) | (0b11, 0b01) | (0b01, 0b00) => -1,
        _ => 0,
    }
}

/// The stabilized reading taken from `s` starting at index `i`: the first
/// sample that repeats its predecessor, or the last sample when none does.
pub open spec fn spec_stable_from(s: Seq<u8>, i: int) -> u8
    recommends
        1 <= i <= s.len(),
        s.len() >= 1,
    decreases s.len() - i,
{
    if 1 <= i && i < s.len() {
        if s[i] == s[i - 1] {
            s[i]
        } else {
            spec_stable_from(s, i + 1)
        }
    } else {
        s[s.len() - 1]
    }
}

/// What `read_stable` returns for a run of six raw samples.
pub open spec fn spec_stable(s: Seq<u8>) -> u8
    recommends
        s.len() == 6,
{
    spec_stable_from(s, 1)
}

/// Debounces six raw 2-bit pin samples taken in quick succession: returns
/// the first sample that agrees with the one before it, and degrades to the
/// last sample taken when the pins never settle. Never fails.
pub fn read_stable(samples: &[u8; 6]) -> (r: u8)
    ensures
        r == spec_stable(samples@),
{
    let mut i: usize = 1;
    while i < 6
        invariant
            1 <= i <= 6,
            spec_stable(samples@) == spec_stable_from(samples@, i as int),
        decreases 6 - i,
    {
        if samples[i] == samples[i - 1] {
            return samples[i];
        }
        i += 1;
    }
    samples[5]
}

/// The events that one poll tick asks the registered handlers to run:
/// a clockwise detent, a counter-clockwise detent, and a button press.
#[derive(Clone, Copy, PartialEq, Eq, Structural, Debug)]
pub struct EncoderEvents {
    pub cw: bool,
    pub ccw: bool,
    pub pressed: bool,
}

/// The accumulated position after applying one stabilized reading `new`
/// on top of previous reading `last`.
pub open spec fn spec_position_after(p: int, last: u8, new: u8) -> int {
    p + spec_quad_delta(last, new)
}

/// Whether the tick that moves the position from `p` under the transition
/// `last -> new` fires the clockwise handler: the edge was a valid clockwise
/// one and the new position lands on a detent boundary.
pub open spec fn spec_fires_cw(p: int, last: u8, new: u8) -> bool {
    spec_quad_delta(last, new) == 1 && spec_position_after(p, last, new) % (
    EDGES_PER_DETENT as int) == 0
}

/// Whether the tick fires the counter-clockwise handler.
pub open spec fn spec_fires_ccw(p: int, last: u8, new: u8) -> bool {
    spec_quad_delta(last, new) == -1 && spec_position_after(p, last, new) % (
    EDGES_PER_DETENT as int) == 0
}

/// Decoder state for one rotary knob with a momentary push button:
/// the signed accumulated edge count, the last stable 2-bit pin reading,
/// and the last observed button level.
pub struct Encoder {
    pub position: i64,
    pub last_state: u8,
    pub last_button_state: bool,
}

impl Encoder {
    /// A decoder at rest: position zero, pins read as `0b00`, button up.
    pub fn new() -> (e: Encoder)
        ensures
            e.position == 0,
            e.last_state == 0b00,
            e.last_button_state == false,
    {
        Encoder { position: 0, last_state: 0b00, last_button_state: false }
    }

    /// One poll tick over the stabilized 2-bit pin reading and the button
    /// level: accumulates the Gray-code delta, fires a directional event
    /// exactly when the new position is a multiple of `EDGES_PER_DETENT`
    /// and the edge was valid, fires a press event on the button's rising
    /// edge, and records the reading and the button level unconditionally.
    pub fn update(&mut self, state: u8, pressed: bool) -> (ev: EncoderEvents)
        requires
            i64::MIN < old(self).position < i64::MAX,
        ensures
            final(self).position == spec_position_after(
                old(self).position as int,
                old(self).last_state,
                state,
            ),
            final(self).last_state == state,
            final(self).last_button_state == pressed,
            ev.cw == spec_fires_cw(old(self).position as int, old(self).last_state, state),
            ev.ccw == spec_fires_ccw(old(self).position as int, old(self).last_state, state),
            ev.pressed == (!old(self).last_button_state && pressed),
    {
        let delta = quad_delta(self.last_state, state);
        self.position = self.position + (delta as i64);

        let mut cw = false;
        let mut ccw = false;
        if self.position % EDGES_PER_DETENT == 0 && delta != 0 {
            if delta > 0 {
                cw = true;
            } else {
                ccw = true;
            }
        }

        let ev = EncoderEvents { cw, ccw, pressed: !self.last_button_state && pressed };
        self.last_state = state;
        self.last_button_state = pressed;
        ev
    }
}

/// The decoder's delta agrees with the Gray-code transition table on every
/// one of the 16 pairs of 2-bit states: four clockwise pairs give +1, four
/// counter-clockwise pairs give -1, and the remaining eight give 0.
pub proof fn lemma_quad_delta_table()
    ensures
        spec_quad_delta(0b00, 0b01) == 1,
        spec_quad_delta(0b01, 0b11) == 1,
        spec_quad_delta(0b11, 0b10) == 1,
        spec_quad_delta(0b10, 0b00) == 1,
        spec_quad_delta(0b00, 0b10) == -1,
        spec_quad_delta(0b10, 0b11) == -1,
        spec_quad_delta(0b11, 0b01) == -1,
        spec_quad_delta(0b01, 0b00) == -1,
        spec_quad_delta(0b00, 0b00) == 0,
        spec_quad_delta(0b01, 0b01) == 0,
        spec_quad_delta(0b10, 0b10) == 0,
        spec_quad_delta(0b11, 0b11) == 0,
        spec_quad_delta(0b00, 0b11) == 0,
        spec_quad_delta(0b11, 0b00) == 0,
        spec_quad_delta(0b01, 0b10) == 0,
        spec_quad_delta(0b10, 0b01) == 0,
{
}

/// One clean clockwise electrical cycle (00 -> 01 -> 11 -> 10 -> 00) taken
/// from any starting position `p` advances the position by four edges and
/// fires the clockwise handler exactly twice - once per two accumulated
/// position units - and the counter-clockwise handler never.
pub proof fn lemma_clockwise_cycle(p: int)
    ensures
        spec_position_after(
            spec_position_after(
                spec_position_after(spec_position_after(p, 0b00, 0b01), 0b01, 0b11),
                0b11,
                0b10,
            ),
            0b10,
            0b00,
        ) == p + 4,
        (if spec_fires_cw(p, 0b00, 0b01) {
            1int
        } else {
            0int
        }) + (if spec_fires_cw(p + 1, 0b01, 0b11) {
            1int
        } else {
            0int
        }) + (if spec_fires_cw(p + 2, 0b11, 0b10) {
            1int
        } else {
            0int
        }) + (if spec_fires_cw(p + 3, 0b10, 0b00) {
            1int
        } else {
            0int
        }) == 2,
        !spec_fires_ccw(p, 0b00, 0b01),
        !spec_fires_ccw(p + 1, 0b01, 0b11),
        !spec_fires_ccw(p + 2, 0b11, 0b10),
        !spec_fires_ccw(p + 3, 0b10, 0b00),
{
    assert((p + 1) % 2 == 0 || (p + 2) % 2 == 0);
    assert((p + 1) % 2 == (p + 3) % 2);
    assert((p + 2) % 2 == (p + 4) % 2);
    assert(!((p + 1) % 2 == 0 && (p + 2) % 2 == 0));
}

} // verus!
