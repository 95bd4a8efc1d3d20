//! The daemon's control state and what each request does to it.
//!
//! Requests only change this state; the screen is written elsewhere, from
//! what the state calls for. A manual location is carried as `P` (a pair of
//! coordinates), which nothing here inspects: every decision below depends
//! only on which mode is in force, never on where the location is.

use vstd::prelude::*;

use crate::text::{chars_of, concat, decimal, decimal_chars, string_of};

verus! {

broadcast use vstd::string::group_string_axioms;

/// How the target temperature is decided.
#[derive(Clone, Copy, Debug, PartialEq)]
pub enum Mode<P> {
    /// Derive the location from the system timezone, then follow the sun.
    Automatic,
    /// Follow the sun at a location the user supplied.
    ManualLocation(P),
    /// Ignore the sun and hold a fixed colour temperature (kelvin).
    Fixed(u32),
}

/// The mode a configuration implies: a manual location when both
/// coordinates are given, otherwise automatic. A lone coordinate stays
/// automatic.
pub fn configured_mode<L: Copy>(latitude: Option<L>, longitude: Option<L>) -> (m: Mode<(L, L)>)
    ensures
        m == (match (latitude, longitude) {
            (Some(lat), Some(lon)) => Mode::ManualLocation((lat, lon)),
            _ => Mode::Automatic,
        }),
{
    match (latitude, longitude) {
        (Some(lat), Some(lon)) => Mode::ManualLocation((lat, lon)),
        _ => Mode::Automatic,
    }
}

/// The temperature of a neutral screen, whose ramp is the identity.
pub const NEUTRAL_KELVIN: u32 = 6500;

/// The part of the daemon's state that requests change.
#[derive(Clone, Copy)]
pub struct Control<P> {
    /// Whether the filter is on. When off, the screen is left neutral.
    pub enabled: bool,
    /// A pinned temperature from `SetTemperature`; `None` follows the mode.
    pub override_temp: Option<u32>,
    /// The mode in force.
    pub mode: Mode<P>,
    /// The mode the configuration asked for, which "auto" returns to.
    pub configured_mode: Mode<P>,
    /// Whether the configuration file failed to load, so it is never saved
    /// over.
    pub config_damaged: bool,
    /// The daytime bound (kelvin).
    pub day_temp: u32,
    /// The night bound (kelvin).
    pub night_temp: u32,
}

/// What a save writes back to the configuration file.
#[derive(Clone, Copy, Debug, PartialEq)]
pub struct Saved<P> {
    pub day_temp: u32,
    pub night_temp: u32,
    /// The configured manual location, if there is one.
    pub location: Option<P>,
}

/// The words for what drives the temperature; an override or fixed mode
/// names its kelvin.
pub open spec fn source_words<P>(c: Control<P>) -> Seq<char> {
    if !c.enabled {
        "off (screen left neutral)"@
    } else if c.override_temp is Some {
        "manual override ("@ + decimal(c.override_temp.unwrap() as nat) + " K)"@
    } else {
        match c.mode {
            Mode::Automatic => "auto (following the sun)"@,
            Mode::ManualLocation(_) => "auto (manual location)"@,
            Mode::Fixed(k) => "fixed ("@ + decimal(k as nat) + " K)"@,
        }
    }
}

/// Whether the filter is following the sun right now: on, no override, and
/// not a fixed temperature.
pub open spec fn spec_following<P>(c: Control<P>) -> bool {
    c.enabled && c.override_temp is None && !(c.mode is Fixed)
}

/// The kelvin the state calls for, given what the sun says (when a location
/// is known): neutral when off, then an override, then a fixed mode, then
/// the sun, and the day bound when there is no sun to follow.
pub open spec fn spec_desired_kelvin<P>(c: Control<P>, sun_kelvin: Option<u32>) -> u32 {
    if !c.enabled {
        NEUTRAL_KELVIN
    } else if c.override_temp is Some {
        c.override_temp.unwrap()
    } else if c.mode is Fixed {
        c.mode->Fixed_0
    } else {
        match sun_kelvin {
            Some(k) => k,
            None => c.day_temp,
        }
    }
}

/// The state after `SetDayTemp(kelvin)`: never below the night bound.
pub open spec fn with_day_temp<P>(c: Control<P>, kelvin: u32) -> Control<P> {
    Control { day_temp: if kelvin >= c.night_temp { kelvin } else { c.night_temp }, ..c }
}

/// The state after `SetNightTemp(kelvin)`: never above the daytime bound.
pub open spec fn with_night_temp<P>(c: Control<P>, kelvin: u32) -> Control<P> {
    Control { night_temp: if kelvin <= c.day_temp { kelvin } else { c.day_temp }, ..c }
}

/// The state after `Toggle`.
pub open spec fn toggled<P>(c: Control<P>) -> Control<P> {
    Control { enabled: !c.enabled, ..c }
}

/// The state after `SetMode("auto")`.
pub open spec fn following_the_sun<P>(c: Control<P>) -> Control<P> {
    Control { override_temp: None, mode: c.configured_mode, enabled: true, ..c }
}

/// The state after `SetLocation(location)`.
pub open spec fn located_at<P>(c: Control<P>, location: P) -> Control<P> {
    Control {
        mode: Mode::ManualLocation(location),
        configured_mode: Mode::ManualLocation(location),
        ..c
    }
}

/// The bounds are ordered: day at or above night.
pub open spec fn ordered<P>(c: Control<P>) -> bool {
    c.day_temp >= c.night_temp
}

/// The day and night bounds stay ordered whatever a client sends: after
/// setting either bound the pair is ordered, and no other request moves
/// them.
pub proof fn lemma_bounds_stay_ordered<P>(c: Control<P>, kelvin: u32, location: P)
    ensures
        ordered(with_day_temp(c, kelvin)),
        ordered(with_night_temp(c, kelvin)),
        ordered(c) ==> ordered(toggled(c)),
        ordered(c) ==> ordered(following_the_sun(c)),
        ordered(c) ==> ordered(located_at(c, location)),
{
}

/// Toggling twice leaves the state as it was.
pub proof fn lemma_toggle_twice_is_identity<P>(c: Control<P>)
    ensures
        toggled(toggled(c)) == c,
{
}

/// A pinned location survives a trip through "auto": after `SetLocation`,
/// `SetMode("auto")` follows the sun at that location, on, with no
/// override.
pub proof fn lemma_location_survives_auto<P>(c: Control<P>, location: P)
    ensures
        following_the_sun(located_at(c, location)).mode == Mode::ManualLocation(location),
        spec_following(following_the_sun(located_at(c, location))),
{
}

/// Off leaves the screen neutral whatever else is set, and an override
/// outranks the mode.
pub proof fn lemma_off_is_neutral_and_override_wins<P>(c: Control<P>, sun_kelvin: Option<u32>)
    ensures
        !c.enabled ==> spec_desired_kelvin(c, sun_kelvin) == NEUTRAL_KELVIN,
        c.enabled && c.override_temp is Some ==> spec_desired_kelvin(c, sun_kelvin)
            == c.override_temp.unwrap(),
{
}

/// Where the status report places the daemon, and the location cache after
/// it: nowhere in a fixed mode, the pinned location in a manual one, and in
/// automatic mode the cached location, or a fresh timezone lookup before
/// anything was cached. The cache is kept only in automatic mode.
pub open spec fn spec_status_location<P>(mode: Mode<P>, cached: Option<P>, fresh: Option<P>) -> (
    Option<P>,
    Option<P>,
) {
    match mode {
        Mode::Fixed(_) => (None, cached),
        Mode::ManualLocation(p) => (Some(p), cached),
        Mode::Automatic => {
            let found = if cached is Some {
                cached
            } else {
                fresh
            };
            (found, found)
        },
    }
}

/// Where the screen loop follows the sun, and the cache after it: the same
/// as the status report, except that automatic mode tries a fresh lookup
/// first and falls back on the cache, so a momentary failure never loses a
/// location once found.
pub open spec fn spec_sun_location<P>(mode: Mode<P>, cached: Option<P>, fresh: Option<P>) -> (
    Option<P>,
    Option<P>,
) {
    match mode {
        Mode::Fixed(_) => (None, cached),
        Mode::ManualLocation(p) => (Some(p), cached),
        Mode::Automatic => {
            let found = if fresh is Some {
                fresh
            } else {
                cached
            };
            (found, found)
        },
    }
}

/// A location, once found in automatic mode, is never lost: the screen
/// loop keeps following the sun through a failed lookup, and the status
/// report answers from the cache without looking again. A fixed mode
/// reports no location and leaves the cache alone.
pub proof fn lemma_a_found_location_is_kept<P>(mode: Mode<P>, cached: Option<P>, fresh: Option<P>)
    ensures
        mode is Automatic && cached is Some ==> spec_sun_location(mode, cached, fresh).0 is Some
            && spec_sun_location(mode, cached, fresh).1 is Some,
        mode is Automatic && cached is Some ==> spec_status_location(mode, cached, fresh) == (
            cached,
            cached,
        ),
        mode is Fixed ==> spec_sun_location(mode, cached, fresh) == (None::<P>, cached)
            && spec_status_location(mode, cached, fresh) == (None::<P>, cached),
{
}

/// The status reply's fields that are not measurements of the sun: on or
/// off, the temperature last applied, what drives it, whether the filter
/// follows the sun, the two bounds, and where the daemon is.
#[derive(Clone, Debug)]
pub struct Reply<P> {
    pub enabled: bool,
    pub temperature: u32,
    pub source: String,
    pub following: bool,
    pub day_temp: u32,
    pub night_temp: u32,
    pub location: Option<P>,
}

/// What the status reply says, given the temperature last applied, the
/// cached location and a fresh lookup: the state's switch and bounds, the
/// applied temperature, the source and following rules, and the location
/// the status report finds.
pub open spec fn reply_matches<P>(r: Reply<P>, c: Control<P>, current_temp: u32, cached: Option<P>, fresh: Option<P>) -> bool {
    &&& r.enabled == c.enabled
    &&& r.temperature == current_temp
    &&& r.source@ == source_words(c)
    &&& r.following == spec_following(c)
    &&& r.day_temp == c.day_temp
    &&& r.night_temp == c.night_temp
    &&& r.location == spec_status_location(c.mode, cached, fresh).0
}

impl<P: Copy> Control<P> {
    /// Pins a manual temperature and turns the filter on.
    pub fn set_temperature(&mut self, kelvin: u32)
        ensures
            *final(self) == (Control { override_temp: Some(kelvin), enabled: true, ..*old(self) }),
    {
        self.override_temp = Some(kelvin);
        self.enabled = true;
    }

    /// Turns the filter on or off.
    pub fn set_enabled(&mut self, enabled: bool)
        ensures
            *final(self) == (Control { enabled, ..*old(self) }),
    {
        self.enabled = enabled;
    }

    /// Flips the filter on or off.
    pub fn toggle(&mut self)
        ensures
            *final(self) == toggled(*old(self)),
    {
        self.enabled = !self.enabled;
    }

    /// Switches mode. `"auto"` clears any override, returns to the
    /// configured sun-following mode and turns the filter on; anything
    /// else changes nothing.
    pub fn set_mode(&mut self, mode: &str)
        ensures
            mode@ == "auto"@ ==> *final(self) == following_the_sun(*old(self)),
            mode@ != "auto"@ ==> *final(self) == *old(self),
    {
        let auto = chars_of("auto");
        if crate::text::same_chars(&chars_of(mode), &auto) {
            self.override_temp = None;
            self.mode = self.configured_mode;
            self.enabled = true;
        }
    }

    /// Sets the daytime bound, never below the night bound, so the band
    /// stays ordered whatever a client sends.
    pub fn set_day_temp(&mut self, kelvin: u32)
        ensures
            *final(self) == with_day_temp(*old(self), kelvin),
    {
        self.day_temp = if kelvin >= self.night_temp {
            kelvin
        } else {
            self.night_temp
        };
    }

    /// Sets the night bound, never above the daytime bound.
    pub fn set_night_temp(&mut self, kelvin: u32)
        ensures
            *final(self) == with_night_temp(*old(self), kelvin),
    {
        self.night_temp = if kelvin <= self.day_temp {
            kelvin
        } else {
            self.day_temp
        };
    }

    /// Pins a manual location, both now and as the configured mode, so it
    /// survives a trip through "auto".
    pub fn set_location(&mut self, location: P)
        ensures
            *final(self) == located_at(*old(self), location),
    {
        self.mode = Mode::ManualLocation(location);
        self.configured_mode = Mode::ManualLocation(location);
    }

    /// Returns to deriving the location from the timezone, now and in the
    /// configuration.
    pub fn clear_location(&mut self)
        ensures
            *final(self) == (Control {
                mode: Mode::Automatic,
                configured_mode: Mode::Automatic,
                ..*old(self)
            }),
    {
        self.mode = Mode::Automatic;
        self.configured_mode = Mode::Automatic;
    }

    /// Whether the filter is actively following the sun.
    pub fn following(&self) -> (b: bool)
        ensures
            b == spec_following(*self),
    {
        self.enabled && self.override_temp.is_none() && !matches!(self.mode, Mode::Fixed(_))
    }

    /// What a save writes: the bounds and the configured manual location
    /// (not the live mode, so a trip through auto never deletes it). `None`
    /// when the file on disk failed to load: a damaged file is never
    /// written over.
    pub fn saved(&self) -> (r: Option<Saved<P>>)
        ensures
            self.config_damaged ==> r is None,
            !self.config_damaged ==> r == Some(
                Saved {
                    day_temp: self.day_temp,
                    night_temp: self.night_temp,
                    location: match self.configured_mode {
                        Mode::ManualLocation(p) => Some(p),
                        _ => None,
                    },
                },
            ),
    {
        if self.config_damaged {
            return None;
        }
        let location = match self.configured_mode {
            Mode::ManualLocation(p) => Some(p),
            _ => None,
        };
        Some(Saved { day_temp: self.day_temp, night_temp: self.night_temp, location })
    }

    /// The kelvin the state calls for, given the sun's kelvin when a
    /// location is known.
    pub fn desired_kelvin(&self, sun_kelvin: Option<u32>) -> (k: u32)
        ensures
            k == spec_desired_kelvin(*self, sun_kelvin),
    {
        if !self.enabled {
            NEUTRAL_KELVIN
        } else if let Some(kelvin) = self.override_temp {
            kelvin
        } else if let Mode::Fixed(kelvin) = self.mode {
            kelvin
        } else {
            match sun_kelvin {
                Some(k) => k,
                None => self.day_temp,
            }
        }
    }

    /// Whether the status report has to look the timezone up: only in
    /// automatic mode with nothing cached.
    pub fn status_needs_lookup(&self, cached: Option<P>) -> (b: bool)
        ensures
            b == (self.mode is Automatic && cached is None),
    {
        matches!(self.mode, Mode::Automatic) && cached.is_none()
    }

    /// Where the status report places the daemon and the cache after it,
    /// given the cached location and, when one was needed, a fresh lookup.
    pub fn status_location(&self, cached: Option<P>, fresh: Option<P>) -> (r: (Option<P>, Option<P>))
        ensures
            r == spec_status_location(self.mode, cached, fresh),
    {
        match self.mode {
            Mode::Fixed(_) => (None, cached),
            Mode::ManualLocation(p) => (Some(p), cached),
            Mode::Automatic => {
                let found = if cached.is_some() {
                    cached
                } else {
                    fresh
                };
                (found, found)
            },
        }
    }

    /// Where the screen loop follows the sun and the cache after it, given
    /// the cached location and the lookup made on this tick.
    pub fn sun_location(&self, cached: Option<P>, fresh: Option<P>) -> (r: (Option<P>, Option<P>))
        ensures
            r == spec_sun_location(self.mode, cached, fresh),
    {
        match self.mode {
            Mode::Fixed(_) => (None, cached),
            Mode::ManualLocation(p) => (Some(p), cached),
            Mode::Automatic => {
                let found = if fresh.is_some() {
                    fresh
                } else {
                    cached
                };
                (found, found)
            },
        }
    }

    /// Assembles the status reply from the state, the temperature last
    /// applied, the cached location and (when one was needed) a fresh
    /// lookup; returns the reply and the location cache after it. The sun's
    /// elevation at the location is the caller's to add.
    pub fn status_reply(&self, current_temp: u32, cached: Option<P>, fresh: Option<P>) -> (r: (
        Reply<P>,
        Option<P>,
    ))
        ensures
            reply_matches(r.0, *self, current_temp, cached, fresh),
            r.1 == spec_status_location(self.mode, cached, fresh).1,
    {
        let (location, cache) = self.status_location(cached, fresh);
        let reply = Reply {
            enabled: self.enabled,
            temperature: current_temp,
            source: self.describe_source(),
            following: self.following(),
            day_temp: self.day_temp,
            night_temp: self.night_temp,
            location,
        };
        (reply, cache)
    }

    /// Describes what is driving the temperature, for the status readout:
    /// off wins over a manual override, which wins over the mode.
    pub fn describe_source(&self) -> (s: String)
        ensures
            s@ == source_words(*self),
    {
        if !self.enabled {
            "off (screen left neutral)".to_owned()
        } else if let Some(kelvin) = self.override_temp {
            with_kelvin("manual override (", kelvin)
        } else {
            match self.mode {
                Mode::Automatic => "auto (following the sun)".to_owned(),
                Mode::ManualLocation(_) => "auto (manual location)".to_owned(),
                Mode::Fixed(kelvin) => with_kelvin("fixed (", kelvin),
            }
        }
    }
}

/// `<lead><kelvin> K)`.
fn with_kelvin(lead: &str, kelvin: u32) -> (s: String)
    ensures
        s@ == lead@ + decimal(kelvin as nat) + " K)"@,
{
    let text = concat(&concat(&chars_of(lead), &decimal_chars(kelvin as u64)), &chars_of(" K)"));
    string_of(&text)
}

} // verus!
