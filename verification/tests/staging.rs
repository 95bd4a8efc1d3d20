use nightlightd::bounds::CurveEdit;
use nightlightd::staging::{stage_step, StageAction, StageEvent, Staging};

fn seeded() -> Staging {
    let (s, a) = stage_step(
        Staging::new(6500, 4500),
        StageEvent::Reported { day_temp: 6200, night_temp: 3400, others_moved: false, busy: false },
    );
    assert!(a.is_empty());
    s
}

#[test]
fn the_first_report_seeds_the_bounds() {
    let s = seeded();
    assert!(s.synced);
    assert_eq!((s.day_temp, s.night_temp), (6200, 3400));
    assert_eq!((s.orig_day, s.orig_night, s.daemon_day, s.daemon_night), (6200, 3400, 6200, 3400));
    assert!(!s.pending());
}

#[test]
fn a_drag_stages_and_apply_sends_band_then_bounds() {
    let (s, a) = stage_step(seeded(), StageEvent::Edit(CurveEdit::Band { day: false }));
    assert!(a.is_empty());
    let (s, a) = stage_step(s, StageEvent::Edit(CurveEdit::DayTemp(7000)));
    assert!(a.is_empty());
    assert!(s.pending());
    let (s, a) = stage_step(s, StageEvent::Apply);
    assert_eq!(
        a,
        vec![
            StageAction::SendBand,
            StageAction::SetDayTemp(7000),
            StageAction::SetNightTemp(3400),
            StageAction::Refresh
        ]
    );
    assert!(!s.pending());
    assert_eq!(s.day_temp, 7000);
    // Nothing staged, nothing to apply.
    assert!(stage_step(s, StageEvent::Apply).1.is_empty());
}

#[test]
fn a_band_alone_is_sent_alone() {
    let (s, _) = stage_step(seeded(), StageEvent::Edit(CurveEdit::Band { day: true }));
    assert_eq!(stage_step(s, StageEvent::Apply).1, vec![StageAction::SendBand, StageAction::Refresh]);
}

#[test]
fn revert_undoes_the_drag_not_the_session() {
    let start = seeded();
    let (s, _) = stage_step(start, StageEvent::Edit(CurveEdit::NightTemp(2000)));
    let (s, _) = stage_step(s, StageEvent::Edit(CurveEdit::Band { day: true }));
    let (s, a) = stage_step(s, StageEvent::Revert);
    assert_eq!(a, vec![StageAction::DropBand]);
    assert_eq!(s, start);
}

#[test]
fn sliders_send_on_release_and_the_session_revert_restores_the_opening_bounds() {
    let (s, a) = stage_step(seeded(), StageEvent::Slider { day: true, kelvin: 5000 });
    assert_eq!(a, vec![StageAction::SetDayTemp(5000), StageAction::Refresh]);
    let (s, a) = stage_step(s, StageEvent::Slider { day: false, kelvin: 3000 });
    assert_eq!(a, vec![StageAction::SetNightTemp(3000), StageAction::Refresh]);
    let (s, a) = stage_step(s, StageEvent::RevertSession);
    assert_eq!(
        a,
        vec![StageAction::SetDayTemp(6200), StageAction::SetNightTemp(3400), StageAction::Refresh]
    );
    assert_eq!((s.day_temp, s.night_temp), (6200, 3400));
    // Before the first report there is nothing to go back to.
    assert!(stage_step(Staging::new(6500, 4500), StageEvent::RevertSession).1.is_empty());
}

#[test]
fn a_report_adopts_outside_changes_but_never_over_a_staged_edit() {
    let report = StageEvent::Reported { day_temp: 5800, night_temp: 3000, others_moved: false, busy: false };
    let (s, _) = stage_step(seeded(), report);
    assert_eq!((s.day_temp, s.daemon_day, s.night_temp, s.daemon_night), (5800, 5800, 3000, 3000));
    assert_eq!((s.orig_day, s.orig_night), (6200, 3400));
    let (staged, _) = stage_step(seeded(), StageEvent::Edit(CurveEdit::DayTemp(7000)));
    assert_eq!(stage_step(staged, report).0, staged);
    let held = StageEvent::Reported { day_temp: 5800, night_temp: 3000, others_moved: false, busy: true };
    assert_eq!(stage_step(seeded(), held).0, seeded());
}
