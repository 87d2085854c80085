use git_ui::{poll_at, race_step, RaceStep, SignalResolution, FLAG_TIMEOUT_MILLIS};

fn resolves(at_millis: u64, value: bool) -> Option<SignalResolution> {
    Some(SignalResolution { at_millis, value })
}

#[test]
fn timeout_is_five_seconds() {
    assert_eq!(FLAG_TIMEOUT_MILLIS, 5000);
}

#[test]
fn early_true_signal_enables() {
    let signal = resolves(1200, true);
    assert_eq!(poll_at(signal, 0), RaceStep::Pending);
    assert_eq!(poll_at(signal, 1199), RaceStep::Pending);
    assert_eq!(poll_at(signal, 1200), RaceStep::Decided(true));
}

#[test]
fn early_false_signal_disables() {
    let signal = resolves(4999, false);
    assert_eq!(poll_at(signal, 4998), RaceStep::Pending);
    assert_eq!(poll_at(signal, 4999), RaceStep::Decided(false));
}

#[test]
fn unresolved_signal_times_out_disabled() {
    assert_eq!(poll_at(None, 0), RaceStep::Pending);
    assert_eq!(poll_at(None, 4999), RaceStep::Pending);
    assert_eq!(poll_at(None, 5000), RaceStep::Decided(false));
}

#[test]
fn late_true_signal_loses_to_timeout() {
    let signal = resolves(7000, true);
    assert_eq!(poll_at(signal, 4999), RaceStep::Pending);
    assert_eq!(poll_at(signal, 5000), RaceStep::Decided(false));
}

#[test]
fn signal_wins_a_tie_with_the_timer() {
    assert_eq!(poll_at(resolves(5000, true), 5000), RaceStep::Decided(true));
    assert_eq!(race_step(Some(true), true), RaceStep::Decided(true));
}

#[test]
fn race_step_cases() {
    assert_eq!(race_step(None, false), RaceStep::Pending);
    assert_eq!(race_step(None, true), RaceStep::Decided(false));
    assert_eq!(race_step(Some(false), false), RaceStep::Decided(false));
    assert_eq!(race_step(Some(true), false), RaceStep::Decided(true));
}
