use vstd::prelude::*;

verus! {

/// How long the flag may take to resolve, in milliseconds. Past that the
/// feature stays disabled.
pub const FLAG_TIMEOUT_MILLIS: u64 = 5000;

/// The state of one race between the flag signal and the timeout.
#[derive(Clone, Copy, Debug, PartialEq, Eq, Structural)]
pub enum RaceStep {
    /// Neither branch is ready: keep waiting.
    Pending,
    /// The race is over with this enablement.
    Decided(bool),
}

/// One poll of the race. The signal branch has priority: when it has
/// resolved, its value wins even if the timer has elapsed too. Otherwise an
/// elapsed timer decides `false`.
pub open spec fn race_step_spec(signal: Option<bool>, timer_elapsed: bool) -> RaceStep {
    match signal {
        Some(value) => RaceStep::Decided(value),
        None => if timer_elapsed {
            RaceStep::Decided(false)
        } else {
            RaceStep::Pending
        },
    }
}

/// Decides one poll of the race from what each branch has produced so far.
pub fn race_step(signal: Option<bool>, timer_elapsed: bool) -> (r: RaceStep)
    ensures
        r == race_step_spec(signal, timer_elapsed),
        signal is Some ==> r == RaceStep::Decided(signal->0),
        signal is None && timer_elapsed ==> r == RaceStep::Decided(false),
        signal is None && !timer_elapsed ==> r == RaceStep::Pending,
{
    match signal {
        Some(value) => RaceStep::Decided(value),
        None => if timer_elapsed {
            RaceStep::Decided(false)
        } else {
            RaceStep::Pending
        },
    }
}

/// When the flag signal resolved, in milliseconds after the race began, and
/// to what.
#[derive(Clone, Copy, Debug, PartialEq, Eq, Structural)]
pub struct SignalResolution {
    pub at_millis: u64,
    pub value: bool,
}

/// What the signal branch has produced by `now` milliseconds into the race;
/// `None` as the resolution is a signal that never resolves.
pub open spec fn signal_ready_at(resolution: Option<SignalResolution>, now: u64) -> Option<bool> {
    match resolution {
        Some(res) => if res.at_millis <= now {
            Some(res.value)
        } else {
            None
        },
        None => None,
    }
}

/// The state of the race when it is polled `now` milliseconds after it began.
pub open spec fn step_at(resolution: Option<SignalResolution>, now: u64) -> RaceStep {
    race_step_spec(signal_ready_at(resolution, now), now >= FLAG_TIMEOUT_MILLIS)
}

/// Polls the race at `now_millis` milliseconds after it began, given when the
/// signal resolves.
pub fn poll_at(resolution: Option<SignalResolution>, now_millis: u64) -> (r: RaceStep)
    ensures
        r == step_at(resolution, now_millis),
{
    let signal = match resolution {
        Some(res) => if res.at_millis <= now_millis {
            Some(res.value)
        } else {
            None
        },
        None => None,
    };
    race_step(signal, now_millis >= FLAG_TIMEOUT_MILLIS)
}

/// A signal that resolves strictly before the timeout decides the race with
/// its own value: the race is pending until then and decided by it at that
/// moment.
pub proof fn lemma_early_signal_decides(at_millis: u64, value: bool)
    requires
        at_millis < FLAG_TIMEOUT_MILLIS,
    ensures
        forall|t: u64|
            t < at_millis ==> #[trigger] step_at(
                Some(SignalResolution { at_millis, value }),
                t,
            ) == RaceStep::Pending,
        step_at(Some(SignalResolution { at_millis, value }), at_millis) == RaceStep::Decided(value),
{
}

/// A signal that resolves at the very moment the timer elapses still wins.
pub proof fn lemma_signal_wins_tie(value: bool)
    ensures
        forall|t: u64|
            t < FLAG_TIMEOUT_MILLIS ==> #[trigger] step_at(
                Some(SignalResolution { at_millis: FLAG_TIMEOUT_MILLIS, value }),
                t,
            ) == RaceStep::Pending,
        step_at(Some(SignalResolution { at_millis: FLAG_TIMEOUT_MILLIS, value }), FLAG_TIMEOUT_MILLIS)
            == RaceStep::Decided(value),
{
}

/// A signal that resolves after the timeout, or never, is not waited for:
/// the race is pending until the timeout and then decided `false`.
pub proof fn lemma_late_or_missing_signal_times_out(resolution: Option<SignalResolution>)
    requires
        resolution matches Some(res) ==> res.at_millis > FLAG_TIMEOUT_MILLIS,
    ensures
        forall|t: u64| t < FLAG_TIMEOUT_MILLIS ==> #[trigger] step_at(resolution, t) == RaceStep::Pending,
        step_at(resolution, FLAG_TIMEOUT_MILLIS) == RaceStep::Decided(false),
{
}

} // verus!
