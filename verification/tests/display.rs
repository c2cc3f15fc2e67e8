use headunit::display::Display;
use headunit::display::draw_bar;
use headunit::display::truncate;
use headunit::encoder::Encoder;
use headunit::screen::Align;
use headunit::screen::DrawOp;
use headunit::state::State;
use headunit::state::volume_up;

#[test]
fn truncate_keeps_short_text_unchanged() {
    assert_eq!(truncate(String::from("Gorillaz"), 40), "Gorillaz");
    assert_eq!(truncate(String::from("abcde"), 5), "abcde");
    assert_eq!(truncate(String::from(""), 5), "");
}

#[test]
fn truncate_cuts_to_budget_and_appends_ellipsis() {
    assert_eq!(truncate(String::from("abcdefghij"), 5), "abcde...");
    assert_eq!(truncate(String::from("abcdef"), 5), "abcde...");
    assert_eq!(
        truncate(String::from("Plastic Beach (feat. Mick Jones and Paul Simonon)"), 34),
        "Plastic Beach (feat. Mick Jones an..."
    );
}

#[test]
fn truncate_twice_is_idempotent() {
    let once = truncate(String::from("abcdefghij"), 5);
    let twice = truncate(once.clone(), 5);
    assert_eq!(twice, once);
    let once = truncate(String::from("abc"), 5);
    let twice = truncate(once.clone(), 5);
    assert_eq!(twice, once);
}

#[test]
fn bar_scales_its_filled_width_and_clamps() {
    let ops = draw_bar("VOLUME", 50, 0, 100, "%");
    assert_eq!(ops.len(), 4);
    match &ops[0] {
        DrawOp::Text { content, x, align, .. } => {
            assert_eq!(content.as_str(), "VOLUME");
            assert_eq!(*x, 4);
            assert!(matches!(align, Align::Left));
        },
        _ => panic!("expected the label text"),
    }
    match &ops[1] {
        DrawOp::Text { content, x, align, .. } => {
            assert_eq!(content.as_str(), "50%");
            assert_eq!(*x, 251);
            assert!(matches!(align, Align::Right));
        },
        _ => panic!("expected the value text"),
    }
    match &ops[2] {
        DrawOp::Rect { x, y, w, h, shade } => {
            assert_eq!((*x, *y, *w, *h, *shade), (4, 20, 247, 38, 4));
        },
        _ => panic!("expected the background rectangle"),
    }
    match &ops[3] {
        DrawOp::Rect { w, shade, .. } => {
            // 247 * 50 / 100, truncated.
            assert_eq!(*w, 123);
            assert_eq!(*shade, 15);
        },
        _ => panic!("expected the filled rectangle"),
    }

    let ops = draw_bar("VOLUME", 100, 0, 100, "%");
    match &ops[3] {
        DrawOp::Rect { w, .. } => assert_eq!(*w, 247),
        _ => panic!("expected the filled rectangle"),
    }
    // A value beyond the range fills the whole bar but is shown as is.
    let ops = draw_bar("VOLUME", 150, 0, 100, "%");
    match &ops[1] {
        DrawOp::Text { content, .. } => assert_eq!(content.as_str(), "150%"),
        _ => panic!("expected the value text"),
    }
    match &ops[3] {
        DrawOp::Rect { w, .. } => assert_eq!(*w, 247),
        _ => panic!("expected the filled rectangle"),
    }
}

#[test]
fn first_tick_always_draws_in_full() {
    let mut pipe = Display::new();
    let mut state = State::new();
    let ops = pipe.update(&mut state, 987654).expect("the first tick must draw");
    // The normal home layout: six text runs and the bottom rule.
    assert_eq!(ops.len(), 7);
    assert!(matches!(ops[6], DrawOp::Line { .. }));
    match &ops[0] {
        DrawOp::Text { content, .. } => assert_eq!(content.as_str(), "13.2 V"),
        _ => panic!("expected the voltage text"),
    }
    match &ops[1] {
        DrawOp::Text { content, .. } => assert_eq!(content.as_str(), "34 W"),
        _ => panic!("expected the wattage text"),
    }
    match &ops[2] {
        DrawOp::Text { content, .. } => assert_eq!(content.as_str(), "UP"),
        _ => panic!("expected the antenna text"),
    }
    match &ops[3] {
        DrawOp::Text { content, .. } => assert_eq!(content.as_str(), "AUTO"),
        _ => panic!("expected the power text"),
    }
    match &ops[4] {
        DrawOp::Text { content, .. } => {
            assert_eq!(content.as_str(), "Plastic Beach (feat. Mick Jones an...")
        },
        _ => panic!("expected the title text"),
    }
    match &ops[5] {
        DrawOp::Text { content, .. } => assert_eq!(content.as_str(), "Gorillaz"),
        _ => panic!("expected the artist text"),
    }
}

#[test]
fn throttled_tick_skips_redraw_but_records_the_snapshot() {
    let mut pipe = Display::new();
    let mut state = State::new();
    assert!(pipe.update(&mut state, 0).is_some());

    state.set_volume(60);
    // Less than 200 ms after the last attempt: no redraw...
    assert!(pipe.update(&mut state, 100).is_none());
    // ...but the stored snapshot was still replaced.
    assert_eq!(pipe.last_state.as_ref().unwrap().volume(), 60);
}

#[test]
fn unchanged_state_never_redraws() {
    let mut pipe = Display::new();
    let mut state = State::new();
    assert!(pipe.update(&mut state, 0).is_some());
    assert!(pipe.update(&mut state, 300).is_none());
    assert!(pipe.update(&mut state, 900).is_none());
}

#[test]
fn detents_raise_volume_and_drive_the_overlay_through_its_lifecycle() {
    let mut pipe = Display::new();
    let mut state = State::new();
    let mut enc = Encoder::new();

    // First tick renders the normal layout.
    let ops = pipe.update(&mut state, 0).expect("first draw");
    assert_eq!(ops.len(), 7);

    // Two clockwise detents: four valid clockwise electrical edges.
    for pins in [0b01u8, 0b11, 0b10, 0b00] {
        let ev = enc.update(pins, false);
        assert!(!ev.ccw);
        if ev.cw {
            let v = state.volume();
            state.set_volume(volume_up(v));
        }
    }
    assert_eq!(state.volume(), 54);

    // Past the throttle, the changed volume brings up the overlay bar.
    let ops = pipe.update(&mut state, 300).expect("overlay draw");
    assert_eq!(ops.len(), 4);
    match &ops[0] {
        DrawOp::Text { content, .. } => assert_eq!(content.as_str(), "VOLUME"),
        _ => panic!("expected the overlay label"),
    }
    match &ops[1] {
        DrawOp::Text { content, .. } => assert_eq!(content.as_str(), "54%"),
        _ => panic!("expected the overlay value"),
    }

    // While the countdown runs with nothing changing, nothing is redrawn.
    assert!(pipe.update(&mut state, 600).is_none());

    // Once the countdown has expired, the next tick reverts to the normal
    // layout of its own accord.
    let ops = pipe.update(&mut state, 1500).expect("revert draw");
    assert_eq!(ops.len(), 7);
    assert!(matches!(ops[6], DrawOp::Line { .. }));
}

#[test]
fn repeated_volume_changes_keep_resetting_the_overlay() {
    let mut pipe = Display::new();
    let mut state = State::new();
    assert!(pipe.update(&mut state, 0).is_some());

    state.set_volume(52);
    assert_eq!(pipe.update(&mut state, 250).expect("overlay").len(), 4);

    // Another change before expiry restarts the 1000 ms countdown.
    state.set_volume(54);
    let ops = pipe.update(&mut state, 500).expect("overlay refresh");
    assert_eq!(ops.len(), 4);

    // 800 ms after the reset the countdown is still running: a tick whose
    // elapsed time stays under the remainder draws nothing...
    assert!(pipe.update(&mut state, 1300).is_none());
    // ...and the expiry after the restarted countdown reverts the layout.
    let ops = pipe.update(&mut state, 2600).expect("revert");
    assert_eq!(ops.len(), 7);
}
