//! The settings panel's staging of the day and night bounds and the band.
//!
//! A drag on the curve proposes a shape without sending it: a ramp drag
//! stages a band, a plateau drag moves a temperature bound and marks it
//! staged. Apply sends what is staged, the band first and then both bounds;
//! Revert drops the staged band and puts the bounds back to what the daemon
//! holds, undoing the drag rather than the session. The settings sliders
//! send on release instead, and their "Revert changes" restores the bounds
//! the panel opened with. A status poll seeds the bounds once and later
//! adopts changes made elsewhere, but never over a staged or held edit.
//!
//! The staged band itself is a pair of elevations the caller keeps: it is
//! only stored and forwarded, so here it is a flag, and the actions tell the
//! caller when to send or drop it.

use vstd::prelude::*;

use crate::bounds::CurveEdit;

verus! {

/// The panel's bookkeeping of the bounds.
#[derive(Clone, Copy, Debug, PartialEq, Eq, Structural)]
pub struct Staging {
    /// A band dragged on the curve and not yet sent.
    pub band_staged: bool,
    /// The bounds below were moved on the curve and not yet sent.
    pub temps_staged: bool,
    /// The daytime bound the panel shows.
    pub day_temp: u32,
    /// The night bound the panel shows.
    pub night_temp: u32,
    /// The daytime bound the daemon last reported.
    pub daemon_day: u32,
    /// The night bound the daemon last reported.
    pub daemon_night: u32,
    /// Whether the bounds have been seeded from the daemon yet.
    pub synced: bool,
    /// The daytime bound the panel opened with.
    pub orig_day: u32,
    /// The night bound the panel opened with.
    pub orig_night: u32,
}

/// What happens to the bounds.
#[derive(Clone, Copy, Debug, PartialEq, Eq, Structural)]
pub enum StageEvent {
    /// A drag on the curve proposed this.
    Edit(CurveEdit),
    /// The Apply button.
    Apply,
    /// The curve's Revert button.
    Revert,
    /// A settings slider released at this value (`day` for the daytime
    /// bound).
    Slider { day: bool, kelvin: u32 },
    /// The settings card's "Revert changes".
    RevertSession,
    /// A status poll reported these bounds. `others_moved`: the daemon's
    /// gamma or night dimming differs from what was last seen; `busy`: a
    /// slider or the curve is being dragged.
    Reported { day_temp: u32, night_temp: u32, others_moved: bool, busy: bool },
}

/// What the caller must do, in order.
#[derive(Clone, Copy, Debug, PartialEq, Eq, Structural)]
pub enum StageAction {
    /// Send the staged band, and adopt it as the daemon's.
    SendBand,
    /// Forget the staged band.
    DropBand,
    /// Send this daytime bound.
    SetDayTemp(u32),
    /// Send this night bound.
    SetNightTemp(u32),
    /// Read the daemon's status afresh.
    Refresh,
}

/// The panel's bookkeeping before the first status: nothing staged, the
/// compiled-in bounds shown, not yet seeded.
pub open spec fn initial(day_temp: u32, night_temp: u32) -> Staging {
    Staging {
        band_staged: false,
        temps_staged: false,
        day_temp,
        night_temp,
        daemon_day: day_temp,
        daemon_night: night_temp,
        synced: false,
        orig_day: day_temp,
        orig_night: night_temp,
    }
}

/// Apply's sends: the staged band, then both staged bounds, then a fresh
/// read.
pub open spec fn apply_actions(s: Staging) -> Seq<StageAction> {
    (if s.band_staged { seq![StageAction::SendBand] } else { Seq::empty() }) + (if s.temps_staged {
        seq![StageAction::SetDayTemp(s.day_temp), StageAction::SetNightTemp(s.night_temp)]
    } else {
        Seq::empty()
    }) + seq![StageAction::Refresh]
}

/// One event on the bounds: the next bookkeeping and what to do. Apply and
/// Revert are offered only while something is staged, and do nothing
/// otherwise.
pub open spec fn spec_stage_step(s: Staging, e: StageEvent) -> (Staging, Seq<StageAction>) {
    match e {
        StageEvent::Edit(CurveEdit::Band { .. }) => (Staging { band_staged: true, ..s }, Seq::empty()),
        StageEvent::Edit(CurveEdit::DayTemp(k)) => (Staging { day_temp: k, temps_staged: true, ..s }, Seq::empty()),
        StageEvent::Edit(CurveEdit::NightTemp(k)) => (Staging { night_temp: k, temps_staged: true, ..s }, Seq::empty()),
        StageEvent::Apply => if s.band_staged || s.temps_staged {
            (Staging { band_staged: false, temps_staged: false, ..s }, apply_actions(s))
        } else {
            (s, Seq::empty())
        },
        StageEvent::Revert => if s.band_staged || s.temps_staged {
            let back = if s.temps_staged {
                Staging { day_temp: s.daemon_day, night_temp: s.daemon_night, ..s }
            } else {
                s
            };
            (Staging { band_staged: false, temps_staged: false, ..back }, seq![StageAction::DropBand])
        } else {
            (s, Seq::empty())
        },
        StageEvent::Slider { day, kelvin } => if day {
            (Staging { day_temp: kelvin, temps_staged: false, ..s }, seq![StageAction::SetDayTemp(kelvin), StageAction::Refresh])
        } else {
            (Staging { night_temp: kelvin, temps_staged: false, ..s }, seq![StageAction::SetNightTemp(kelvin), StageAction::Refresh])
        },
        StageEvent::RevertSession => if s.synced {
            (
                Staging { day_temp: s.orig_day, night_temp: s.orig_night, ..s },
                seq![StageAction::SetDayTemp(s.orig_day), StageAction::SetNightTemp(s.orig_night), StageAction::Refresh],
            )
        } else {
            (s, Seq::empty())
        },
        StageEvent::Reported { day_temp, night_temp, others_moved, busy } => if !s.synced {
            (
                Staging {
                    day_temp,
                    night_temp,
                    daemon_day: day_temp,
                    daemon_night: night_temp,
                    orig_day: day_temp,
                    orig_night: night_temp,
                    synced: true,
                    ..s
                },
                Seq::empty(),
            )
        } else if !busy && !s.temps_staged && (day_temp != s.daemon_day || night_temp != s.daemon_night || others_moved) {
            (Staging { day_temp, night_temp, daemon_day: day_temp, daemon_night: night_temp, ..s }, Seq::empty())
        } else {
            (s, Seq::empty())
        },
    }
}

impl Staging {
    /// The bookkeeping before the first status, showing the compiled-in
    /// bounds.
    pub fn new(day_temp: u32, night_temp: u32) -> (s: Staging)
        ensures
            s == initial(day_temp, night_temp),
    {
        Staging {
            band_staged: false,
            temps_staged: false,
            day_temp,
            night_temp,
            daemon_day: day_temp,
            daemon_night: night_temp,
            synced: false,
            orig_day: day_temp,
            orig_night: night_temp,
        }
    }

    /// Whether Apply and Revert are offered: something is staged.
    pub fn pending(&self) -> (b: bool)
        ensures
            b == (self.band_staged || self.temps_staged),
    {
        self.band_staged || self.temps_staged
    }
}

/// One event on the bounds: the next bookkeeping and the actions to take,
/// in order.
pub fn stage_step(s: Staging, e: StageEvent) -> (r: (Staging, Vec<StageAction>))
    ensures
        r.0 == spec_stage_step(s, e).0,
        r.1@ == spec_stage_step(s, e).1,
{
    let mut actions: Vec<StageAction> = Vec::new();
    let next = match e {
        StageEvent::Edit(CurveEdit::Band { .. }) => Staging { band_staged: true, ..s },
        StageEvent::Edit(CurveEdit::DayTemp(k)) => Staging { day_temp: k, temps_staged: true, ..s },
        StageEvent::Edit(CurveEdit::NightTemp(k)) => Staging { night_temp: k, temps_staged: true, ..s },
        StageEvent::Apply => if s.band_staged || s.temps_staged {
            if s.band_staged {
                actions.push(StageAction::SendBand);
            }
            if s.temps_staged {
                actions.push(StageAction::SetDayTemp(s.day_temp));
                actions.push(StageAction::SetNightTemp(s.night_temp));
            }
            actions.push(StageAction::Refresh);
            Staging { band_staged: false, temps_staged: false, ..s }
        } else {
            s
        },
        StageEvent::Revert => if s.band_staged || s.temps_staged {
            actions.push(StageAction::DropBand);
            let back = if s.temps_staged {
                Staging { day_temp: s.daemon_day, night_temp: s.daemon_night, ..s }
            } else {
                s
            };
            Staging { band_staged: false, temps_staged: false, ..back }
        } else {
            s
        },
        StageEvent::Slider { day, kelvin } => if day {
            actions.push(StageAction::SetDayTemp(kelvin));
            actions.push(StageAction::Refresh);
            Staging { day_temp: kelvin, temps_staged: false, ..s }
        } else {
            actions.push(StageAction::SetNightTemp(kelvin));
            actions.push(StageAction::Refresh);
            Staging { night_temp: kelvin, temps_staged: false, ..s }
        },
        StageEvent::RevertSession => if s.synced {
            actions.push(StageAction::SetDayTemp(s.orig_day));
            actions.push(StageAction::SetNightTemp(s.orig_night));
            actions.push(StageAction::Refresh);
            Staging { day_temp: s.orig_day, night_temp: s.orig_night, ..s }
        } else {
            s
        },
        StageEvent::Reported { day_temp, night_temp, others_moved, busy } => if !s.synced {
            Staging {
                day_temp,
                night_temp,
                daemon_day: day_temp,
                daemon_night: night_temp,
                orig_day: day_temp,
                orig_night: night_temp,
                synced: true,
                ..s
            }
        } else if !busy && !s.temps_staged && (day_temp != s.daemon_day || night_temp != s.daemon_night
            || others_moved) {
            Staging { day_temp, night_temp, daemon_day: day_temp, daemon_night: night_temp, ..s }
        } else {
            s
        },
    };
    proof {
        assert(actions@ =~= spec_stage_step(s, e).1);
    }
    (next, actions)
}

/// A curve edit never reaches the daemon by itself: it only stages, and
/// only Apply sends it.
pub proof fn lemma_an_edit_only_stages(s: Staging, edit: CurveEdit)
    ensures
        spec_stage_step(s, StageEvent::Edit(edit)).1.len() == 0,
        spec_stage_step(s, StageEvent::Edit(edit)).0.band_staged || spec_stage_step(s, StageEvent::Edit(edit)).0.temps_staged,
{
}

/// Apply sends exactly what is staged — the band first, then the two
/// bounds as shown — and leaves nothing staged.
pub proof fn lemma_apply_sends_what_is_staged(s: Staging)
    requires
        s.band_staged || s.temps_staged,
    ensures
        ({
            let (n, a) = spec_stage_step(s, StageEvent::Apply);
            &&& !n.band_staged && !n.temps_staged
            &&& n.day_temp == s.day_temp && n.night_temp == s.night_temp
            &&& a.contains(StageAction::SendBand) <==> s.band_staged
            &&& s.band_staged ==> a[0] == StageAction::SendBand
            &&& s.temps_staged ==> a.contains(StageAction::SetDayTemp(s.day_temp)) && a.contains(StageAction::SetNightTemp(s.night_temp))
            &&& a.last() == StageAction::Refresh
        }),
{
    let a = spec_stage_step(s, StageEvent::Apply).1;
    if s.band_staged {
        assert(a[0] == StageAction::SendBand);
        if s.temps_staged {
            assert(a[1] == StageAction::SetDayTemp(s.day_temp));
            assert(a[2] == StageAction::SetNightTemp(s.night_temp));
        }
    } else {
        if s.temps_staged {
            assert(a[0] == StageAction::SetDayTemp(s.day_temp));
            assert(a[1] == StageAction::SetNightTemp(s.night_temp));
        }
        assert forall|i: int| 0 <= i < a.len() implies a[i] != StageAction::SendBand by {}
    }
}

/// Revert undoes the drag, not the session: from bounds in step with the
/// daemon, any curve edit followed by Revert gives back the same bounds,
/// nothing staged, and sends nothing.
pub proof fn lemma_revert_undoes_the_drag(s: Staging, edit: CurveEdit)
    requires
        !s.band_staged,
        !s.temps_staged,
        s.day_temp == s.daemon_day,
        s.night_temp == s.daemon_night,
    ensures
        ({
            let (n, a) = spec_stage_step(spec_stage_step(s, StageEvent::Edit(edit)).0, StageEvent::Revert);
            &&& n == s
            &&& a == seq![StageAction::DropBand]
        }),
{
}

/// A poll never overwrites an edit that is staged or being dragged: once
/// seeded, a report changes the shown bounds only when nothing is staged
/// and nothing held.
pub proof fn lemma_polls_never_overwrite_an_edit(s: Staging, day_temp: u32, night_temp: u32, others_moved: bool, busy: bool)
    requires
        s.synced,
        s.temps_staged || busy,
    ensures
        spec_stage_step(s, StageEvent::Reported { day_temp, night_temp, others_moved, busy }).0 == s,
{
}

} // verus!
