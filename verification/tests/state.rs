use headunit::home::HomeScreen;
use headunit::state::ActiveScreen;
use headunit::state::PowerSetting;
use headunit::state::State;
use headunit::state::volume_down;
use headunit::state::volume_up;

#[test]
fn new_state_holds_the_power_up_defaults() {
    let s = State::new();
    assert!(s.accessory_power());
    assert!(matches!(s.power_setting(), PowerSetting::AUTO));
    assert!(s.antenna_up());
    assert_eq!(s.voltage(), 13200);
    assert_eq!(s.current(), 2600);
    assert_eq!(s.track_title(), "Plastic Beach (feat. Mick Jones and Paul Simonon)");
    assert_eq!(s.track_artist(), "Gorillaz");
    assert_eq!(s.volume(), 50);
    let ActiveScreen::Home(h) = s.current_screen();
    assert_eq!(h.volume_timer, 0);
}

#[test]
fn accessors_round_trip() {
    let mut s = State::new();
    s.set_accessory_power(false);
    assert!(!s.accessory_power());
    s.set_power_setting(PowerSetting::OFF);
    assert!(matches!(s.power_setting(), PowerSetting::OFF));
    s.set_antenna_up(false);
    assert!(!s.antenna_up());
    s.set_voltage(12000);
    assert_eq!(s.voltage(), 12000);
    s.set_current(1500);
    assert_eq!(s.current(), 1500);
    s.set_track_title("Feel Good Inc");
    assert_eq!(s.track_title(), "Feel Good Inc");
    s.set_track_artist("Gorillaz");
    assert_eq!(s.track_artist(), "Gorillaz");
    s.set_volume(80);
    assert_eq!(s.volume(), 80);
    s.set_current_screen(ActiveScreen::Home(HomeScreen { volume_timer: 250 }));
    let ActiveScreen::Home(h) = s.current_screen();
    assert_eq!(h.volume_timer, 250);
}

#[test]
fn matches_ignores_screen_substate_but_compares_the_rest() {
    let a = State::new();
    let mut b = a.clone();
    assert!(a.matches(&b));
    assert!(a == b);

    // Pure animation progress must not look like a state change.
    b.set_current_screen(ActiveScreen::Home(HomeScreen { volume_timer: 900 }));
    assert!(a.matches(&b));
    assert!(a == b);

    b.set_volume(51);
    assert!(!a.matches(&b));
    assert!(a != b);

    let mut c = a.clone();
    c.set_track_title("Something else");
    assert!(!a.matches(&c));

    let mut d = a.clone();
    d.set_voltage(12100);
    assert!(!a.matches(&d));
}

#[test]
fn clone_copies_every_field() {
    let mut a = State::new();
    a.set_track_title("On Melancholy Hill");
    a.set_volume(73);
    let b = a.clone();
    assert_eq!(b.track_title(), "On Melancholy Hill");
    assert_eq!(b.volume(), 73);
    assert!(a.matches(&b));
}

#[test]
fn volume_steps_clamp_at_the_range_ends() {
    assert_eq!(volume_up(50), 52);
    assert_eq!(volume_up(98), 100);
    assert_eq!(volume_up(99), 100);
    assert_eq!(volume_up(100), 100);
    assert_eq!(volume_down(50), 48);
    assert_eq!(volume_down(2), 0);
    assert_eq!(volume_down(1), 0);
    assert_eq!(volume_down(0), 0);
}
