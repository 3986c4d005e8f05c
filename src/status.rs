use vstd::prelude::*;

verus! {

/// The phase of the timer, with the instant (in milliseconds) at which the
/// current work round or break began.
#[derive(Clone, Copy, Debug, PartialEq, Eq, Structural)]
pub enum TimerStatus {
    /// A work round, running since the given instant.
    Running(u64),
    /// A break, running since the given instant.
    Break(u64),
    /// No round is active.
    Stopped,
}

/// What a transition asks of the outside world: a notification and a sound
/// cue. The timer only names the effect; delivering it is up to the caller.
#[derive(Clone, Copy, Debug, PartialEq, Eq, Structural)]
pub enum TransitionEffect {
    /// A work round was started by the user.
    RoundStarted,
    /// A work round ran out; a break (or a stop) follows.
    RoundFinished,
    /// A break ran out; a new work round follows.
    BreakFinished,
}

/// The sound that goes with a transition.
#[derive(Clone, Copy, Debug, PartialEq, Eq, Structural)]
pub enum SoundCue {
    /// The cue for work starting.
    Start,
    /// The cue for a round that ran out.
    Finish,
}

impl TransitionEffect {
    /// The notification title and body for this transition; a round that
    /// the user starts is announced by its sound alone.
    pub fn notification(&self) -> (r: Option<(&'static str, &'static str)>)
        ensures
            *self == TransitionEffect::RoundStarted ==> r is None,
            *self == TransitionEffect::RoundFinished ==> r is Some && r.unwrap().0@
                == "Time is up!"@ && r.unwrap().1@ == "Take a break"@,
            *self == TransitionEffect::BreakFinished ==> r is Some && r.unwrap().0@
                == "Back to work!"@ && r.unwrap().1@ == "Start focusing again :)"@,
    {
        proof {
            reveal_strlit("Time is up!");
            reveal_strlit("Take a break");
            reveal_strlit("Back to work!");
            reveal_strlit("Start focusing again :)");
        }
        match self {
            TransitionEffect::RoundStarted => None,
            TransitionEffect::RoundFinished => Some(("Time is up!", "Take a break")),
            TransitionEffect::BreakFinished => Some(("Back to work!", "Start focusing again :)")),
        }
    }

    /// The sound for this transition: the finish cue when a round ran out,
    /// the start cue when work (re)starts.
    pub fn sound(&self) -> (r: SoundCue)
        ensures
            r == (if *self == TransitionEffect::RoundFinished {
                SoundCue::Finish
            } else {
                SoundCue::Start
            }),
    {
        match self {
            TransitionEffect::RoundFinished => SoundCue::Finish,
            _ => SoundCue::Start,
        }
    }
}

/// The label of the start/stop control: "Stop Round" while a round or a
/// break is active, "Start Round" when stopped.
pub fn toggle_label(status: &TimerStatus) -> (r: &'static str)
    ensures
        *status == TimerStatus::Stopped ==> r@ == "Start Round"@,
        *status != TimerStatus::Stopped ==> r@ == "Stop Round"@,
{
    proof {
        reveal_strlit("Start Round");
        reveal_strlit("Stop Round");
    }
    match status {
        TimerStatus::Stopped => "Start Round",
        _ => "Stop Round",
    }
}

impl Default for TimerStatus {
    fn default() -> (r: Self)
        ensures
            r == TimerStatus::Stopped,
    {
        TimerStatus::Stopped
    }
}

/// Time from `start` to `now`, or zero when the clock reads earlier than `start`.
pub open spec fn since(start: u64, now: u64) -> nat {
    if now >= start {
        (now - start) as nat
    } else {
        0
    }
}

/// Time spent in the current phase; zero when stopped.
pub open spec fn elapsed_of(status: TimerStatus, now: u64) -> nat {
    match status {
        TimerStatus::Running(t0) => since(t0, now),
        TimerStatus::Break(t0) => since(t0, now),
        TimerStatus::Stopped => 0,
    }
}

/// Time left in the current phase. Negative once the phase has overrun and
/// has not yet been advanced; zero when stopped.
pub open spec fn remaining_of(
    status: TimerStatus,
    time_per_round: u64,
    time_per_break: u64,
    now: u64,
) -> int {
    match status {
        TimerStatus::Running(_) => time_per_round - elapsed_of(status, now),
        TimerStatus::Break(_) => time_per_break - elapsed_of(status, now),
        TimerStatus::Stopped => 0,
    }
}

/// An active phase whose time has run out.
pub open spec fn is_complete_of(
    status: TimerStatus,
    time_per_round: u64,
    time_per_break: u64,
    now: u64,
) -> bool {
    status != TimerStatus::Stopped && remaining_of(status, time_per_round, time_per_break, now) <= 0
}

/// The phase that follows a completed one: a break after a round, a round
/// after a break, each starting at `now`.
pub open spec fn next_status(status: TimerStatus, now: u64) -> TimerStatus {
    match status {
        TimerStatus::Running(_) => TimerStatus::Break(now),
        TimerStatus::Break(_) => TimerStatus::Running(now),
        TimerStatus::Stopped => TimerStatus::Stopped,
    }
}

/// The effect that announces leaving a completed phase.
pub open spec fn completion_effect(status: TimerStatus) -> Option<TransitionEffect> {
    match status {
        TimerStatus::Running(_) => Some(TransitionEffect::RoundFinished),
        TimerStatus::Break(_) => Some(TransitionEffect::BreakFinished),
        TimerStatus::Stopped => None,
    }
}

/// Time spent in the current phase at `now`. A clock that reads earlier than
/// the phase's start gives zero, never a fault.
pub fn get_elapsed_time(status: &TimerStatus, now: u64) -> (r: u64)
    ensures
        r == elapsed_of(*status, now),
        match *status {
            TimerStatus::Running(t0) => now < t0 ==> r == 0,
            TimerStatus::Break(t0) => now < t0 ==> r == 0,
            TimerStatus::Stopped => r == 0,
        },
{
    match status {
        TimerStatus::Running(start) => now.saturating_sub(*start),
        TimerStatus::Break(start) => now.saturating_sub(*start),
        TimerStatus::Stopped => 0,
    }
}

/// Time left in the current phase at `now`, against the round length while
/// running and the break length on a break.
pub fn get_remaining_time(
    status: &TimerStatus,
    time_per_round: u64,
    time_per_break: u64,
    now: u64,
) -> (r: i128)
    ensures
        r == remaining_of(*status, time_per_round, time_per_break, now),
{
    let elapsed = get_elapsed_time(status, now);
    match status {
        TimerStatus::Running(_) => time_per_round as i128 - elapsed as i128,
        TimerStatus::Break(_) => time_per_break as i128 - elapsed as i128,
        TimerStatus::Stopped => 0,
    }
}

/// Whether the active phase has run out at `now`. Never true when stopped.
pub fn get_is_round_complete(
    status: &TimerStatus,
    time_per_round: u64,
    time_per_break: u64,
    now: u64,
) -> (r: bool)
    ensures
        r == is_complete_of(*status, time_per_round, time_per_break, now),
{
    let remaining = get_remaining_time(status, time_per_round, time_per_break, now);
    match status {
        TimerStatus::Stopped => false,
        _ => remaining <= 0,
    }
}

/// Moves a completed phase on to the next one, started at `now`, and returns
/// the effect that announces it. Leaves the phase as it is, with no effect,
/// when `round_complete` is false or the timer is stopped.
pub fn handle_round_complete(
    status: &mut TimerStatus,
    round_complete: bool,
    now: u64,
) -> (r: Option<TransitionEffect>)
    ensures
        round_complete ==> *final(status) == next_status(*old(status), now),
        round_complete ==> r == completion_effect(*old(status)),
        !round_complete ==> *final(status) == *old(status) && r is None,
{
    if round_complete {
        match *status {
            TimerStatus::Running(_) => {
                *status = TimerStatus::Break(now);
                Some(TransitionEffect::RoundFinished)
            },
            TimerStatus::Break(_) => {
                *status = TimerStatus::Running(now);
                Some(TransitionEffect::BreakFinished)
            },
            TimerStatus::Stopped => None,
        }
    } else {
        None
    }
}

/// While a work round runs and the clock has not gone back, the time left is
/// the round length less the time since the round began, and the round is
/// complete exactly when that is zero or less.
pub proof fn lemma_running_remaining(
    t0: u64,
    now: u64,
    time_per_round: u64,
    time_per_break: u64,
)
    requires
        now >= t0,
        time_per_round > 0,
    ensures
        remaining_of(TimerStatus::Running(t0), time_per_round, time_per_break, now)
            == time_per_round - (now - t0),
        is_complete_of(TimerStatus::Running(t0), time_per_round, time_per_break, now)
            <==> remaining_of(TimerStatus::Running(t0), time_per_round, time_per_break, now) <= 0,
{
}

/// Within one phase and one configuration, the time left never grows as the
/// clock advances.
pub proof fn lemma_remaining_monotone(
    status: TimerStatus,
    time_per_round: u64,
    time_per_break: u64,
    now1: u64,
    now2: u64,
)
    requires
        now1 <= now2,
    ensures
        remaining_of(status, time_per_round, time_per_break, now2) <= remaining_of(
            status,
            time_per_round,
            time_per_break,
            now1,
        ),
{
}

} // verus!
