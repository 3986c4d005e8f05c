use vstd::prelude::*;
use crate::status::{
    completion_effect, elapsed_of, get_is_round_complete, handle_round_complete, is_complete_of,
    next_status, TimerStatus, TransitionEffect,
};

verus! {

/// Length of a work round when nothing else is configured: 25 minutes.
pub const DEFAULT_ROUND_MS: u64 = 1_500_000;

/// Length of a break when nothing else is configured: 5 minutes.
pub const DEFAULT_BREAK_MS: u64 = 300_000;

/// The round timer: configured lengths, the current phase and the number of
/// work rounds completed since the last reset.
#[derive(Clone, Copy, Debug, PartialEq, Eq, Structural)]
pub struct TomatoTimer {
    /// Length of a work round, in milliseconds.
    pub time_per_round: u64,
    /// Length of a break, in milliseconds.
    pub time_per_break: u64,
    /// Work rounds completed since the last reset.
    pub session_count: u64,
    /// The current phase.
    pub status: TimerStatus,
    /// Whether a break follows a completed round; when false the timer stops
    /// instead.
    pub breaks_enabled: bool,
}

/// The timer after one tick at `now`: a completed phase is left for the next
/// one (a stop in place of a break when breaks are off), and a completed
/// work round counts once. Nothing changes when no phase is complete.
pub open spec fn ticked(t: TomatoTimer, now: u64) -> TomatoTimer {
    if is_complete_of(t.status, t.time_per_round, t.time_per_break, now) {
        match t.status {
            TimerStatus::Running(_) => TomatoTimer {
                session_count: t.session_count.saturating_add(1),
                status: if t.breaks_enabled {
                    next_status(t.status, now)
                } else {
                    TimerStatus::Stopped
                },
                ..t
            },
            _ => TomatoTimer { status: next_status(t.status, now), ..t },
        }
    } else {
        t
    }
}

/// The effect that one tick at `now` asks for.
pub open spec fn tick_effect(t: TomatoTimer, now: u64) -> Option<TransitionEffect> {
    if is_complete_of(t.status, t.time_per_round, t.time_per_break, now) {
        completion_effect(t.status)
    } else {
        None
    }
}

impl Default for TomatoTimer {
    fn default() -> (r: Self)
        ensures
            r.time_per_round == DEFAULT_ROUND_MS,
            r.time_per_break == DEFAULT_BREAK_MS,
            r.session_count == 0,
            r.status == TimerStatus::Stopped,
            r.breaks_enabled,
    {
        TomatoTimer {
            time_per_round: DEFAULT_ROUND_MS,
            time_per_break: DEFAULT_BREAK_MS,
            session_count: 0,
            status: TimerStatus::Stopped,
            breaks_enabled: true,
        }
    }
}

impl TomatoTimer {
    /// A stopped timer with no completed rounds and the given configuration.
    pub fn with_settings(time_per_round: u64, time_per_break: u64, breaks_enabled: bool) -> (r: Self)
        ensures
            r.time_per_round == time_per_round,
            r.time_per_break == time_per_break,
            r.session_count == 0,
            r.status == TimerStatus::Stopped,
            r.breaks_enabled == breaks_enabled,
    {
        TomatoTimer {
            time_per_round,
            time_per_break,
            session_count: 0,
            status: TimerStatus::Stopped,
            breaks_enabled,
        }
    }

    /// Starts a work round at `now`. Only a stopped timer with a round length
    /// above zero starts; otherwise nothing changes and no effect is asked for.
    pub fn start(&mut self, now: u64) -> (r: Option<TransitionEffect>)
        ensures
            old(self).status == TimerStatus::Stopped && old(self).time_per_round > 0 ==> {
                &&& *final(self) == (TomatoTimer { status: TimerStatus::Running(now), ..*old(self) })
                &&& r == Some(TransitionEffect::RoundStarted)
            },
            !(old(self).status == TimerStatus::Stopped && old(self).time_per_round > 0) ==> {
                &&& *final(self) == *old(self)
                &&& r is None
            },
    {
        if self.time_per_round > 0 {
            if let TimerStatus::Stopped = self.status {
                self.status = TimerStatus::Running(now);
                return Some(TransitionEffect::RoundStarted);
            }
        }
        None
    }

    /// Stops the current round or break, discarding its start instant.
    pub fn stop(&mut self)
        ensures
            *final(self) == (TomatoTimer { status: TimerStatus::Stopped, ..*old(self) }),
    {
        self.status = TimerStatus::Stopped;
    }

    /// The start/stop control: starts a stopped timer (as `start` does) and
    /// stops a running one or one on a break.
    pub fn toggle(&mut self, now: u64) -> (r: Option<TransitionEffect>)
        ensures
            old(self).status == TimerStatus::Stopped && old(self).time_per_round > 0 ==> {
                &&& *final(self) == (TomatoTimer { status: TimerStatus::Running(now), ..*old(self) })
                &&& r == Some(TransitionEffect::RoundStarted)
            },
            old(self).status == TimerStatus::Stopped && old(self).time_per_round == 0 ==> {
                &&& *final(self) == *old(self)
                &&& r is None
            },
            old(self).status != TimerStatus::Stopped ==> {
                &&& *final(self) == (TomatoTimer { status: TimerStatus::Stopped, ..*old(self) })
                &&& r is None
            },
    {
        if let TimerStatus::Stopped = self.status {
            self.start(now)
        } else {
            self.stop();
            None
        }
    }

    /// Sets the count of completed rounds back to zero, whatever the phase.
    pub fn reset_session_count(&mut self)
        ensures
            *final(self) == (TomatoTimer { session_count: 0, ..*old(self) }),
    {
        self.session_count = 0;
    }

    /// Evaluates the timer at `now` and performs at most one transition:
    /// a completed round moves to a break (or stops, when breaks are off) and
    /// counts once; a completed break moves to a new round. Both start at
    /// `now`. Returns the effect of the transition, if one was made.
    pub fn tick(&mut self, now: u64) -> (r: Option<TransitionEffect>)
        ensures
            *final(self) == ticked(*old(self), now),
            r == tick_effect(*old(self), now),
    {
        let complete = get_is_round_complete(
            &self.status,
            self.time_per_round,
            self.time_per_break,
            now,
        );
        let effect = handle_round_complete(&mut self.status, complete, now);
        if let Some(TransitionEffect::RoundFinished) = effect {
            self.session_count = self.session_count.saturating_add(1);
            if !self.breaks_enabled {
                self.status = TimerStatus::Stopped;
            }
        }
        effect
    }
}

/// With both lengths above zero, a second tick at the same instant changes
/// nothing and asks for no effect: one tick makes at most the one transition
/// that is due.
pub proof fn lemma_tick_idempotent(t: TomatoTimer, now: u64)
    requires
        t.time_per_round > 0,
        t.time_per_break > 0,
    ensures
        ticked(ticked(t, now), now) == ticked(t, now),
        tick_effect(ticked(t, now), now) is None,
{
}

/// A running round that has reached its length, on a tick at `now`, gives
/// way to a break that starts at `now` and counts once; one that has not yet
/// reached it is left as it is.
pub proof fn lemma_round_transition(t: TomatoTimer, t0: u64, now: u64)
    requires
        t.status == TimerStatus::Running(t0),
        t.breaks_enabled,
        t.session_count < u64::MAX,
        now >= t0,
    ensures
        now - t0 >= t.time_per_round ==> {
            &&& ticked(t, now).status == TimerStatus::Break(now)
            &&& ticked(t, now).session_count == t.session_count + 1
            &&& tick_effect(t, now) == Some(TransitionEffect::RoundFinished)
        },
        now - t0 < t.time_per_round ==> ticked(t, now) == t && tick_effect(t, now) is None,
{
}

/// A tick never lowers the count of completed rounds and adds at most one,
/// and it adds one exactly when a running round has reached its length and
/// the count has room.
pub proof fn lemma_tick_counts_once(t: TomatoTimer, now: u64)
    ensures
        t.session_count <= ticked(t, now).session_count <= t.session_count + 1,
        ticked(t, now).session_count == t.session_count + 1 <==> {
            &&& t.status is Running
            &&& elapsed_of(t.status, now) >= t.time_per_round
            &&& t.session_count < u64::MAX
        },
{
}

} // verus!
