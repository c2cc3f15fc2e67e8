//! The shared application state snapshot: power and antenna status, the
//! electrical readings, track metadata, volume, and the active screen with
//! its transient substate.
//!
//! The voltage and current readings are held in milli units (millivolts,
//! milliamps), which is what the display logic reads of them. Logical
//! equality between snapshots (`matches`) deliberately ignores the active
//! screen's transient substate and compares only its variant tag, so pure
//! animation progress never triggers a diff-detected redraw.
use vstd::prelude::*;
use vstd::string::StringExecFns;

use crate::home::HomeScreen;

verus! {

/// The amplifier power setting.
#[allow(non_camel_case_types)]
#[derive(Clone, Copy, PartialEq, Eq, Structural, Debug)]
pub enum PowerSetting {
    ON,
    AUTO,
    OFF,
}

/// The active screen, tagged with that screen's own transient substate.
#[derive(Clone, Copy, PartialEq, Eq, Structural, Debug)]
pub enum ActiveScreen {
    Home(HomeScreen),
}

/// The mathematical form of a state snapshot.
pub struct StateV {
    pub accessory_power: bool,
    pub power_setting: PowerSetting,
    pub antenna_up: bool,
    pub voltage_mv: u32,
    pub current_ma: u32,
    pub track_title: Seq<char>,
    pub track_artist: Seq<char>,
    pub volume: u32,
    pub current_screen: ActiveScreen,
}

/// The shared application state.
pub struct State {
    pub accessory_power: bool,
    pub power_setting: PowerSetting,
    pub antenna_up: bool,
    pub voltage_mv: u32,
    pub current_ma: u32,
    pub track_title: String,
    pub track_artist: String,
    pub volume: u32,
    pub current_screen: ActiveScreen,
}

impl View for State {
    type V = StateV;

    open spec fn view(&self) -> StateV {
        StateV {
            accessory_power: self.accessory_power,
            power_setting: self.power_setting,
            antenna_up: self.antenna_up,
            voltage_mv: self.voltage_mv,
            current_ma: self.current_ma,
            track_title: self.track_title@,
            track_artist: self.track_artist@,
            volume: self.volume,
            current_screen: self.current_screen,
        }
    }
}

/// Whether two active screens carry the same variant tag, whatever their
/// transient substate holds.
pub open spec fn spec_same_screen_tag(a: ActiveScreen, b: ActiveScreen) -> bool {
    match (a, b) {
        (ActiveScreen::Home(_), ActiveScreen::Home(_)) => true,
    }
}

/// Logical snapshot equality: every field is compared, except that the
/// active screen contributes only its variant tag.
pub open spec fn spec_matches(a: StateV, b: StateV) -> bool {
    &&& a.accessory_power == b.accessory_power
    &&& a.power_setting == b.power_setting
    &&& a.antenna_up == b.antenna_up
    &&& a.voltage_mv == b.voltage_mv
    &&& a.current_ma == b.current_ma
    &&& a.track_title == b.track_title
    &&& a.track_artist == b.track_artist
    &&& a.volume == b.volume
    &&& spec_same_screen_tag(a.current_screen, b.current_screen)
}

impl State {
    /// The power-up state: accessory power present, amplifier on AUTO,
    /// antenna up, 13.2 V, 2.6 A, a default track, volume 50, and the home
    /// screen at rest.
    pub fn new() -> (s: State)
        ensures
            s@ == (StateV {
                accessory_power: true,
                power_setting: PowerSetting::AUTO,
                antenna_up: true,
                voltage_mv: 13200,
                current_ma: 2600,
                track_title: "Plastic Beach (feat. Mick Jones and Paul Simonon)"@,
                track_artist: "Gorillaz"@,
                volume: 50,
                current_screen: ActiveScreen::Home(HomeScreen { volume_timer: 0 }),
            }),
    {
        State {
            accessory_power: true,
            power_setting: PowerSetting::AUTO,
            antenna_up: true,
            voltage_mv: 13200,
            current_ma: 2600,
            track_title: String::from_str("Plastic Beach (feat. Mick Jones and Paul Simonon)"),
            track_artist: String::from_str("Gorillaz"),
            volume: 50,
            current_screen: ActiveScreen::Home(HomeScreen::new()),
        }
    }

    pub fn accessory_power(&self) -> (r: bool)
        ensures
            r == self@.accessory_power,
    {
        self.accessory_power
    }

    pub fn set_accessory_power(&mut self, value: bool)
        ensures
            final(self)@ == (StateV { accessory_power: value, ..old(self)@ }),
    {
        self.accessory_power = value;
    }

    pub fn power_setting(&self) -> (r: PowerSetting)
        ensures
            r == self@.power_setting,
    {
        self.power_setting
    }

    pub fn set_power_setting(&mut self, value: PowerSetting)
        ensures
            final(self)@ == (StateV { power_setting: value, ..old(self)@ }),
    {
        self.power_setting = value;
    }

    pub fn antenna_up(&self) -> (r: bool)
        ensures
            r == self@.antenna_up,
    {
        self.antenna_up
    }

    pub fn set_antenna_up(&mut self, value: bool)
        ensures
            final(self)@ == (StateV { antenna_up: value, ..old(self)@ }),
    {
        self.antenna_up = value;
    }

    /// The supply voltage reading, in millivolts.
    pub fn voltage(&self) -> (r: u32)
        ensures
            r == self@.voltage_mv,
    {
        self.voltage_mv
    }

    pub fn set_voltage(&mut self, value: u32)
        ensures
            final(self)@ == (StateV { voltage_mv: value, ..old(self)@ }),
    {
        self.voltage_mv = value;
    }

    /// The supply current reading, in milliamps.
    pub fn current(&self) -> (r: u32)
        ensures
            r == self@.current_ma,
    {
        self.current_ma
    }

    pub fn set_current(&mut self, value: u32)
        ensures
            final(self)@ == (StateV { current_ma: value, ..old(self)@ }),
    {
        self.current_ma = value;
    }

    pub fn track_title(&self) -> (r: String)
        ensures
            r@ == self@.track_title,
    {
        self.track_title.clone()
    }

    pub fn set_track_title(&mut self, value: &str)
        ensures
            final(self)@ == (StateV { track_title: value@, ..old(self)@ }),
    {
        self.track_title = String::from_str(value);
    }

    pub fn track_artist(&self) -> (r: String)
        ensures
            r@ == self@.track_artist,
    {
        self.track_artist.clone()
    }

    pub fn set_track_artist(&mut self, value: &str)
        ensures
            final(self)@ == (StateV { track_artist: value@, ..old(self)@ }),
    {
        self.track_artist = String::from_str(value);
    }

    /// The playback volume; its callers keep it in 0..=100.
    pub fn volume(&self) -> (r: u32)
        ensures
            r == self@.volume,
    {
        self.volume
    }

    pub fn set_volume(&mut self, value: u32)
        ensures
            final(self)@ == (StateV { volume: value, ..old(self)@ }),
    {
        self.volume = value;
    }

    pub fn current_screen(&self) -> (r: &ActiveScreen)
        ensures
            r == self@.current_screen,
    {
        &self.current_screen
    }

    pub fn set_current_screen(&mut self, screen: ActiveScreen)
        ensures
            final(self)@ == (StateV { current_screen: screen, ..old(self)@ }),
    {
        self.current_screen = screen;
    }

    /// Logical equality against another snapshot, per `spec_matches`.
    pub fn matches(&self, other: &State) -> (r: bool)
        ensures
            r == spec_matches(self@, other@),
    {
        let screens_match = match (&self.current_screen, &other.current_screen) {
            (ActiveScreen::Home(_), ActiveScreen::Home(_)) => true,
        };
        self.accessory_power == other.accessory_power && self.power_setting
            == other.power_setting && self.antenna_up == other.antenna_up && self.voltage_mv
            == other.voltage_mv && self.current_ma == other.current_ma && self.track_title
            == other.track_title && self.track_artist == other.track_artist && self.volume
            == other.volume && screens_match
    }
}

impl Clone for State {
    /// A field-for-field copy; the clone's view is the original's.
    fn clone(&self) -> (res: Self)
        ensures
            res@ == self@,
    {
        State {
            accessory_power: self.accessory_power,
            power_setting: self.power_setting,
            antenna_up: self.antenna_up,
            voltage_mv: self.voltage_mv,
            current_ma: self.current_ma,
            track_title: self.track_title.clone(),
            track_artist: self.track_artist.clone(),
            volume: self.volume,
            current_screen: self.current_screen,
        }
    }
}

impl PartialEq for State {
    fn eq(&self, other: &Self) -> (r: bool) {
        self.matches(other)
    }
}

impl vstd::std_specs::cmp::PartialEqSpecImpl for State {
    open spec fn obeys_eq_spec() -> bool {
        true
    }

    open spec fn eq_spec(&self, other: &Self) -> bool {
        spec_matches(self@, other@)
    }
}

/// The volume after one clockwise detent: up two, clamped at 100.
pub fn volume_up(v: u32) -> (r: u32)
    requires
        v <= 100,
    ensures
        r == (if v + 2 > 100 {
            100u32
        } else {
            (v + 2) as u32
        }),
{
    if v >= 98 {
        100
    } else {
        v + 2
    }
}

/// The volume after one counter-clockwise detent: down two, floored at 0.
pub fn volume_down(v: u32) -> (r: u32)
    ensures
        r == (if v >= 2 {
            (v - 2) as u32
        } else {
            0u32
        }),
{
    if v >= 2 {
        v - 2
    } else {
        0
    }
}

} // verus!
