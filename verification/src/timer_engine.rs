//! The focus / rest state machine.
//!
//! One `tick` is one second. A focus period counts down, then the engine
//! switches to resting (or straight back to focusing when rest is skipped);
//! a rest period counts down, then the engine reports the completed rest and
//! starts a new focus period.

use vstd::prelude::*;
use crate::clock::now_epoch_seconds;

verus! {

/// Which half of the rhythm the timer is in.
#[derive(Debug, Clone, Copy, PartialEq, Eq, Structural)]
pub enum Phase {
    Focusing,
    Resting,
}

/// What a step of the engine reports to the code that drives it.
#[derive(Debug, Clone, Copy, PartialEq, Eq, Structural)]
pub enum EngineTransition {
    /// Nothing happened but the countdown.
    Continue,
    /// A focus period ended (or a rest was started by hand).
    FocusToRest { scheduled_rest_seconds: u64, started_at_epoch: i64 },
    /// A rest period ran to its end.
    RestCompleted {
        scheduled_rest_seconds: u64,
        actual_rest_seconds: u64,
        started_at_epoch: i64,
        ended_at_epoch: i64,
    },
}

/// The abstract state of a [`TimerEngine`].
pub struct EngineView {
    pub focus_seconds: u64,
    pub rest_seconds: u64,
    pub remaining_seconds: u64,
    pub phase: Phase,
    pub rest_started_at_epoch: Option<i64>,
}

impl EngineView {
    /// Length of the phase the engine is in.
    pub open spec fn phase_length(self) -> u64 {
        match self.phase {
            Phase::Focusing => self.focus_seconds,
            Phase::Resting => self.rest_seconds,
        }
    }

    /// A rest start time is recorded exactly while resting, and the countdown
    /// never exceeds the length of the current phase.
    pub open spec fn well_formed(self) -> bool {
        &&& (self.phase == Phase::Resting) == self.rest_started_at_epoch.is_some()
        &&& self.remaining_seconds <= self.phase_length()
    }

    /// The same schedule, at the start of a new focus period.
    pub open spec fn focus_restarted(self) -> EngineView {
        EngineView {
            focus_seconds: self.focus_seconds,
            rest_seconds: self.rest_seconds,
            remaining_seconds: self.focus_seconds,
            phase: Phase::Focusing,
            rest_started_at_epoch: None,
        }
    }

    /// The same schedule, at the start of a rest that began at `started`.
    pub open spec fn rest_started(self, started: i64) -> EngineView {
        EngineView {
            focus_seconds: self.focus_seconds,
            rest_seconds: self.rest_seconds,
            remaining_seconds: self.rest_seconds,
            phase: Phase::Resting,
            rest_started_at_epoch: Some(started),
        }
    }

    /// A new schedule, the current phase restarting with its new length.
    pub open spec fn rescheduled(self, focus_seconds: u64, rest_seconds: u64) -> EngineView {
        EngineView {
            focus_seconds,
            rest_seconds,
            remaining_seconds: match self.phase {
                Phase::Focusing => focus_seconds,
                Phase::Resting => rest_seconds,
            },
            phase: self.phase,
            rest_started_at_epoch: self.rest_started_at_epoch,
        }
    }

    /// One second less on the countdown.
    pub open spec fn counted_down(self) -> EngineView {
        EngineView {
            focus_seconds: self.focus_seconds,
            rest_seconds: self.rest_seconds,
            remaining_seconds: (self.remaining_seconds - 1) as u64,
            phase: self.phase,
            rest_started_at_epoch: self.rest_started_at_epoch,
        }
    }
}

/// The state of a new engine: the start of a focus period.
pub open spec fn fresh_engine(focus_seconds: u64, rest_seconds: u64) -> EngineView {
    EngineView {
        focus_seconds,
        rest_seconds,
        remaining_seconds: focus_seconds,
        phase: Phase::Focusing,
        rest_started_at_epoch: None,
    }
}

/// The length of a rest from `started` to `ended`, never negative.
pub open spec fn elapsed_seconds(started: i64, ended: i64) -> u64 {
    if ended - started > 0 {
        (ended - started) as u64
    } else {
        0
    }
}

/// One second of the engine, when the clock reads `now`.
pub open spec fn tick_spec(v: EngineView, skip_rest_enabled: bool, now: i64) -> (
    EngineView,
    EngineTransition,
) {
    if v.remaining_seconds > 0 {
        (v.counted_down(), EngineTransition::Continue)
    } else {
        match v.phase {
            Phase::Focusing => {
                let t = EngineTransition::FocusToRest {
                    scheduled_rest_seconds: v.rest_seconds,
                    started_at_epoch: now,
                };
                if skip_rest_enabled {
                    (v.focus_restarted(), t)
                } else {
                    (v.rest_started(now), t)
                }
            },
            Phase::Resting => {
                let started = match v.rest_started_at_epoch {
                    Some(s) => s,
                    None => now,
                };
                (
                    v.focus_restarted(),
                    EngineTransition::RestCompleted {
                        scheduled_rest_seconds: v.rest_seconds,
                        actual_rest_seconds: elapsed_seconds(started, now),
                        started_at_epoch: started,
                        ended_at_epoch: now,
                    },
                )
            },
        }
    }
}

/// The focus / rest timer. It knows nothing of the UI: the caller consumes
/// the transitions it reports.
#[derive(Debug)]
pub struct TimerEngine {
    focus_seconds: u64,
    rest_seconds: u64,
    remaining_seconds: u64,
    phase: Phase,
    rest_started_at_epoch: Option<i64>,
}

impl View for TimerEngine {
    type V = EngineView;

    closed spec fn view(&self) -> EngineView {
        EngineView {
            focus_seconds: self.focus_seconds,
            rest_seconds: self.rest_seconds,
            remaining_seconds: self.remaining_seconds,
            phase: self.phase,
            rest_started_at_epoch: self.rest_started_at_epoch,
        }
    }
}

impl TimerEngine {
    #[verifier::type_invariant]
    closed spec fn inv(self) -> bool {
        self@.well_formed()
    }

    /// Every engine a caller holds is well formed: a rest start time is
    /// recorded exactly while resting, and the countdown stays within the
    /// current phase. Calling this does nothing at run time; it hands the
    /// engine's invariant to the caller's proof.
    pub fn ensure_well_formed(&self)
        ensures
            self@.well_formed(),
    {
        proof {
            use_type_invariant(self);
        }
    }

    /// A new engine, at the start of a focus period.
    pub fn new(focus_seconds: u64, rest_seconds: u64) -> (e: Self)
        ensures
            e@ == fresh_engine(focus_seconds, rest_seconds),
            e@.well_formed(),
    {
        TimerEngine {
            focus_seconds,
            rest_seconds,
            remaining_seconds: focus_seconds,
            phase: Phase::Focusing,
            rest_started_at_epoch: None,
        }
    }

    /// One second passes, with the clock reading `now_epoch`.
    pub fn tick_at(&mut self, skip_rest_enabled: bool, now_epoch: i64) -> (t: EngineTransition)
        ensures
            (final(self)@, t) == tick_spec(old(self)@, skip_rest_enabled, now_epoch),
            final(self)@.well_formed(),
            final(self)@.focus_seconds == old(self)@.focus_seconds,
            final(self)@.rest_seconds == old(self)@.rest_seconds,
            old(self)@.remaining_seconds > 0 ==> {
                &&& t == EngineTransition::Continue
                &&& final(self)@.remaining_seconds == old(self)@.remaining_seconds - 1
                &&& final(self)@.phase == old(self)@.phase
                &&& final(self)@.rest_started_at_epoch == old(self)@.rest_started_at_epoch
            },
            old(self)@.remaining_seconds == 0 && old(self)@.phase == Phase::Focusing ==> {
                &&& t == (EngineTransition::FocusToRest {
                    scheduled_rest_seconds: old(self)@.rest_seconds,
                    started_at_epoch: now_epoch,
                })
                &&& skip_rest_enabled ==> final(self)@.phase == Phase::Focusing
                    && final(self)@.remaining_seconds == old(self)@.focus_seconds
                    && final(self)@.rest_started_at_epoch is None
                &&& !skip_rest_enabled ==> final(self)@.phase == Phase::Resting
                    && final(self)@.remaining_seconds == old(self)@.rest_seconds
                    && final(self)@.rest_started_at_epoch == Some(now_epoch)
            },
            old(self)@.remaining_seconds == 0 && old(self)@.phase == Phase::Resting ==> {
                &&& old(self)@.rest_started_at_epoch matches Some(started)
                &&& t == (EngineTransition::RestCompleted {
                    scheduled_rest_seconds: old(self)@.rest_seconds,
                    actual_rest_seconds: if now_epoch - started > 0 {
                        (now_epoch - started) as u64
                    } else {
                        0
                    },
                    started_at_epoch: started,
                    ended_at_epoch: now_epoch,
                })
                &&& final(self)@.phase == Phase::Focusing
                &&& final(self)@.remaining_seconds == old(self)@.focus_seconds
                &&& final(self)@.rest_started_at_epoch is None
            },
    {
        proof {
            use_type_invariant(&*self);
        }
        if self.remaining_seconds > 0 {
            self.remaining_seconds = self.remaining_seconds - 1;
            return EngineTransition::Continue;
        }
        match self.phase {
            Phase::Focusing => {
                if skip_rest_enabled {
                    self.force_back_to_focus();
                } else {
                    *self = TimerEngine {
                        focus_seconds: self.focus_seconds,
                        rest_seconds: self.rest_seconds,
                        remaining_seconds: self.rest_seconds,
                        phase: Phase::Resting,
                        rest_started_at_epoch: Some(now_epoch),
                    };
                }
                EngineTransition::FocusToRest {
                    scheduled_rest_seconds: self.rest_seconds,
                    started_at_epoch: now_epoch,
                }
            },
            Phase::Resting => {
                let started = match self.rest_started_at_epoch {
                    Some(s) => s,
                    None => now_epoch,
                };
                let diff: i128 = now_epoch as i128 - started as i128;
                let actual: u64 = if diff > 0 {
                    diff as u64
                } else {
                    0
                };
                self.force_back_to_focus();
                EngineTransition::RestCompleted {
                    scheduled_rest_seconds: self.rest_seconds,
                    actual_rest_seconds: actual,
                    started_at_epoch: started,
                    ended_at_epoch: now_epoch,
                }
            },
        }
    }

    /// One second passes. When a phase ends, the time of the switch is read
    /// from the system clock; whatever it reads, the step is that of
    /// [`tick_spec`] at that reading.
    pub fn tick(&mut self, skip_rest_enabled: bool) -> (t: EngineTransition)
        ensures
            exists|now: i64| (final(self)@, t) == tick_spec(old(self)@, skip_rest_enabled, now),
            final(self)@.well_formed(),
            old(self)@.remaining_seconds > 0 ==> t == EngineTransition::Continue
                && final(self)@ == old(self)@.counted_down(),
            final(self)@.focus_seconds == old(self)@.focus_seconds,
            final(self)@.rest_seconds == old(self)@.rest_seconds,
            exists|now: i64| {
                &&& old(self)@.remaining_seconds == 0 && old(self)@.phase == Phase::Focusing ==> {
                    &&& t == (EngineTransition::FocusToRest {
                        scheduled_rest_seconds: old(self)@.rest_seconds,
                        started_at_epoch: now,
                    })
                    &&& skip_rest_enabled ==> final(self)@.phase == Phase::Focusing
                        && final(self)@.remaining_seconds == old(self)@.focus_seconds
                        && final(self)@.rest_started_at_epoch is None
                    &&& !skip_rest_enabled ==> final(self)@.phase == Phase::Resting
                        && final(self)@.remaining_seconds == old(self)@.rest_seconds
                        && final(self)@.rest_started_at_epoch == Some(now)
                }
                &&& old(self)@.remaining_seconds == 0 && old(self)@.phase == Phase::Resting ==> {
                    &&& old(self)@.rest_started_at_epoch matches Some(started)
                    &&& t == (EngineTransition::RestCompleted {
                        scheduled_rest_seconds: old(self)@.rest_seconds,
                        actual_rest_seconds: if now - started > 0 {
                            (now - started) as u64
                        } else {
                            0
                        },
                        started_at_epoch: started,
                        ended_at_epoch: now,
                    })
                    &&& final(self)@.phase == Phase::Focusing
                    &&& final(self)@.remaining_seconds == old(self)@.focus_seconds
                    &&& final(self)@.rest_started_at_epoch is None
                }
            },
    {
        proof {
            use_type_invariant(&*self);
        }
        if self.remaining_seconds > 0 {
            self.remaining_seconds = self.remaining_seconds - 1;
            assert(tick_spec(old(self)@, skip_rest_enabled, 0).0 == self@);
            EngineTransition::Continue
        } else {
            let now = now_epoch_seconds();
            self.tick_at(skip_rest_enabled, now)
        }
    }

    /// The current phase.
    pub fn phase(&self) -> (p: Phase)
        ensures
            p == self@.phase,
    {
        self.phase
    }

    /// Seconds left in the current phase.
    pub fn remaining_seconds(&self) -> (r: u64)
        ensures
            r == self@.remaining_seconds,
    {
        self.remaining_seconds
    }

    /// New focus and rest lengths; the current phase restarts with its new
    /// length at once, so a change of schedule takes effect immediately.
    pub fn update_schedule(&mut self, focus_seconds: u64, rest_seconds: u64)
        ensures
            final(self)@.focus_seconds == focus_seconds,
            final(self)@.rest_seconds == rest_seconds,
            final(self)@.phase == old(self)@.phase,
            final(self)@.rest_started_at_epoch == old(self)@.rest_started_at_epoch,
            final(self)@.remaining_seconds == final(self)@.phase_length(),
            final(self)@ == old(self)@.rescheduled(focus_seconds, rest_seconds),
            final(self)@.well_formed(),
    {
        proof {
            use_type_invariant(&*self);
        }
        let remaining = match self.phase {
            Phase::Focusing => focus_seconds,
            Phase::Resting => rest_seconds,
        };
        *self = TimerEngine {
            focus_seconds,
            rest_seconds,
            remaining_seconds: remaining,
            phase: self.phase,
            rest_started_at_epoch: self.rest_started_at_epoch,
        };
    }

    /// Starts a rest at once, at clock reading `now_epoch`.
    pub fn start_rest_at(&mut self, now_epoch: i64) -> (t: EngineTransition)
        ensures
            final(self)@ == old(self)@.rest_started(now_epoch),
            t == (EngineTransition::FocusToRest {
                scheduled_rest_seconds: old(self)@.rest_seconds,
                started_at_epoch: now_epoch,
            }),
            final(self)@.well_formed(),
    {
        *self = TimerEngine {
            focus_seconds: self.focus_seconds,
            rest_seconds: self.rest_seconds,
            remaining_seconds: self.rest_seconds,
            phase: Phase::Resting,
            rest_started_at_epoch: Some(now_epoch),
        };
        EngineTransition::FocusToRest {
            scheduled_rest_seconds: self.rest_seconds,
            started_at_epoch: now_epoch,
        }
    }

    /// Starts a rest at once (the "rest now" button); the start time is read
    /// from the system clock.
    pub fn start_rest_now(&mut self) -> (t: EngineTransition)
        ensures
            exists|now: i64|
                final(self)@ == old(self)@.rest_started(now) && t == (EngineTransition::FocusToRest {
                    scheduled_rest_seconds: old(self)@.rest_seconds,
                    started_at_epoch: now,
                }),
            final(self)@.well_formed(),
    {
        let now = now_epoch_seconds();
        self.start_rest_at(now)
    }

    /// Back to the start of a focus period (rest skipped or turned off).
    pub fn force_back_to_focus(&mut self)
        ensures
            final(self)@ == old(self)@.focus_restarted(),
            final(self)@.well_formed(),
    {
        *self = TimerEngine {
            focus_seconds: self.focus_seconds,
            rest_seconds: self.rest_seconds,
            remaining_seconds: self.focus_seconds,
            phase: Phase::Focusing,
            rest_started_at_epoch: None,
        };
    }

    /// A new focus period from the start (screen locked, or reset by hand).
    pub fn reset_focus(&mut self)
        ensures
            final(self)@ == old(self)@.focus_restarted(),
            final(self)@.well_formed(),
    {
        *self = TimerEngine {
            focus_seconds: self.focus_seconds,
            rest_seconds: self.rest_seconds,
            remaining_seconds: self.focus_seconds,
            phase: Phase::Focusing,
            rest_started_at_epoch: None,
        };
    }
}


/// The engine driven for `nows.len()` seconds, the clock reading `nows[i]`
/// at the i-th second: the final state and the transitions reported.
pub open spec fn run_ticks(v: EngineView, skip_rest_enabled: bool, nows: Seq<i64>) -> (
    EngineView,
    Seq<EngineTransition>,
)
    decreases nows.len(),
{
    if nows.len() == 0 {
        (v, Seq::empty())
    } else {
        let first = tick_spec(v, skip_rest_enabled, nows[0]);
        let rest = run_ticks(first.0, skip_rest_enabled, nows.drop_first());
        (rest.0, seq![first.1] + rest.1)
    }
}

/// Every step of the engine keeps it well formed: a rest start time is
/// recorded exactly while resting, and the countdown stays within the phase.
pub proof fn lemma_tick_keeps_well_formed(v: EngineView, skip_rest_enabled: bool, now: i64)
    requires
        v.well_formed(),
    ensures
        tick_spec(v, skip_rest_enabled, now).0.well_formed(),
{
}

/// What one second does, case by case: with time left it only counts down;
/// at the end of a focus period it reports the switch to rest at the clock
/// reading, then rests for the rest length (or, with rest skipped, starts the
/// next focus period); at the end of a rest it reports the rest length, the
/// recorded start, the clock reading as the end and the time between them
/// (never negative), then starts the next focus period. The schedule never
/// changes.
pub proof fn lemma_tick_cases(v: EngineView, skip_rest_enabled: bool, now: i64)
    requires
        v.well_formed(),
    ensures
        ({
            let (n, t) = tick_spec(v, skip_rest_enabled, now);
            &&& n.focus_seconds == v.focus_seconds
            &&& n.rest_seconds == v.rest_seconds
            &&& v.remaining_seconds > 0 ==> {
                &&& t == EngineTransition::Continue
                &&& n.remaining_seconds == v.remaining_seconds - 1
                &&& n.phase == v.phase
                &&& n.rest_started_at_epoch == v.rest_started_at_epoch
            }
            &&& v.remaining_seconds == 0 && v.phase == Phase::Focusing ==> {
                &&& t == (EngineTransition::FocusToRest {
                    scheduled_rest_seconds: v.rest_seconds,
                    started_at_epoch: now,
                })
                &&& skip_rest_enabled ==> n.phase == Phase::Focusing && n.remaining_seconds
                    == v.focus_seconds && n.rest_started_at_epoch is None
                &&& !skip_rest_enabled ==> n.phase == Phase::Resting && n.remaining_seconds
                    == v.rest_seconds && n.rest_started_at_epoch == Some(now)
            }
            &&& v.remaining_seconds == 0 && v.phase == Phase::Resting ==> {
                &&& v.rest_started_at_epoch matches Some(started)
                &&& t == (EngineTransition::RestCompleted {
                    scheduled_rest_seconds: v.rest_seconds,
                    actual_rest_seconds: if now - started > 0 {
                        (now - started) as u64
                    } else {
                        0
                    },
                    started_at_epoch: started,
                    ended_at_epoch: now,
                })
                &&& n.phase == Phase::Focusing
                &&& n.remaining_seconds == v.focus_seconds
                &&& n.rest_started_at_epoch is None
            }
        }),
{
}

/// Running for `a` then for `b` seconds is running for `a + b` seconds.
pub proof fn lemma_run_split(v: EngineView, skip_rest_enabled: bool, a: Seq<i64>, b: Seq<i64>)
    ensures
        run_ticks(v, skip_rest_enabled, a + b).0 == run_ticks(
            run_ticks(v, skip_rest_enabled, a).0,
            skip_rest_enabled,
            b,
        ).0,
        run_ticks(v, skip_rest_enabled, a + b).1 == run_ticks(v, skip_rest_enabled, a).1
            + run_ticks(run_ticks(v, skip_rest_enabled, a).0, skip_rest_enabled, b).1,
        run_ticks(v, skip_rest_enabled, a).1.len() == a.len(),
    decreases a.len(),
{
    if a.len() == 0 {
        assert(a + b =~= b);
    } else {
        let first = tick_spec(v, skip_rest_enabled, a[0]);
        assert((a + b).drop_first() =~= a.drop_first() + b);
        assert((a + b)[0] == a[0]);
        lemma_run_split(first.0, skip_rest_enabled, a.drop_first(), b);
        let ra = run_ticks(first.0, skip_rest_enabled, a.drop_first());
        let rb = run_ticks(ra.0, skip_rest_enabled, b);
        assert(seq![first.1] + (ra.1 + rb.1) =~= (seq![first.1] + ra.1) + rb.1);
    }
}

/// While the countdown has seconds left, each second only counts down: no
/// phase switch is reported and nothing but the countdown changes.
pub proof fn lemma_countdown(v: EngineView, skip_rest_enabled: bool, nows: Seq<i64>)
    requires
        nows.len() <= v.remaining_seconds,
    ensures
        run_ticks(v, skip_rest_enabled, nows).0 == (EngineView {
            remaining_seconds: (v.remaining_seconds - nows.len()) as u64,
            ..v
        }),
        run_ticks(v, skip_rest_enabled, nows).1.len() == nows.len(),
        forall|i: int|
            0 <= i < nows.len() ==> #[trigger] run_ticks(v, skip_rest_enabled, nows).1[i]
                == EngineTransition::Continue,
    decreases nows.len(),
{
    if nows.len() > 0 {
        let first = tick_spec(v, skip_rest_enabled, nows[0]);
        lemma_countdown(first.0, skip_rest_enabled, nows.drop_first());
        let r = run_ticks(first.0, skip_rest_enabled, nows.drop_first());
        assert forall|i: int| 0 <= i < nows.len() implies #[trigger] run_ticks(
            v,
            skip_rest_enabled,
            nows,
        ).1[i] == EngineTransition::Continue by {
            if i > 0 {
                assert(r.1[i - 1] == EngineTransition::Continue);
            }
        }
    }
}

/// A focus period with `r` seconds left reports nothing for `r` seconds and
/// then, at the next second, the switch to rest, scheduled for the configured
/// rest length and started at that second; the engine is then resting for the
/// full rest length, or, with rest skipped, focusing again from the start.
pub proof fn lemma_focus_period_ends(v: EngineView, skip_rest_enabled: bool, nows: Seq<i64>)
    requires
        v.well_formed(),
        v.phase == Phase::Focusing,
        nows.len() == v.remaining_seconds + 1,
    ensures
        ({
            let r = run_ticks(v, skip_rest_enabled, nows);
            let last = nows[nows.len() - 1];
            &&& r.1.len() == nows.len()
            &&& forall|i: int| 0 <= i < nows.len() - 1 ==> #[trigger] r.1[i] == EngineTransition::Continue
            &&& r.1[nows.len() - 1] == (EngineTransition::FocusToRest {
                scheduled_rest_seconds: v.rest_seconds,
                started_at_epoch: last,
            })
            &&& r.0 == if skip_rest_enabled {
                v.focus_restarted()
            } else {
                v.rest_started(last)
            }
        }),
{
    let n = v.remaining_seconds as int;
    let a = nows.take(n);
    let b = nows.skip(n);
    assert(a + b =~= nows);
    lemma_run_split(v, skip_rest_enabled, a, b);
    lemma_countdown(v, skip_rest_enabled, a);
    assert(b.drop_first().len() == 0);
    assert(b[0] == nows[nows.len() - 1]);
    let mid = run_ticks(v, skip_rest_enabled, a).0;
    let step = tick_spec(mid, skip_rest_enabled, b[0]);
    assert(run_ticks(step.0, skip_rest_enabled, b.drop_first()) == (
        step.0,
        Seq::<EngineTransition>::empty(),
    ));
    assert(run_ticks(mid, skip_rest_enabled, b).1 =~= seq![step.1]);
    let r = run_ticks(v, skip_rest_enabled, nows);
    assert forall|i: int| 0 <= i < nows.len() - 1 implies #[trigger] r.1[i]
        == EngineTransition::Continue by {
        assert(run_ticks(v, skip_rest_enabled, a).1[i] == EngineTransition::Continue);
    }
}

/// A rest period with `r` seconds left reports nothing for `r` seconds and
/// then, at the next second, the completed rest: its scheduled length, the
/// time it actually lasted, its start and its end; the engine then starts a
/// new focus period from the start.
pub proof fn lemma_rest_period_ends(v: EngineView, skip_rest_enabled: bool, nows: Seq<i64>)
    requires
        v.well_formed(),
        v.phase == Phase::Resting,
        nows.len() == v.remaining_seconds + 1,
    ensures
        ({
            let r = run_ticks(v, skip_rest_enabled, nows);
            let last = nows[nows.len() - 1];
            let started = v.rest_started_at_epoch->0;
            &&& r.1.len() == nows.len()
            &&& forall|i: int| 0 <= i < nows.len() - 1 ==> #[trigger] r.1[i] == EngineTransition::Continue
            &&& r.1[nows.len() - 1] == (EngineTransition::RestCompleted {
                scheduled_rest_seconds: v.rest_seconds,
                actual_rest_seconds: elapsed_seconds(started, last),
                started_at_epoch: started,
                ended_at_epoch: last,
            })
            &&& r.0 == v.focus_restarted()
        }),
{
    let n = v.remaining_seconds as int;
    let a = nows.take(n);
    let b = nows.skip(n);
    assert(a + b =~= nows);
    lemma_run_split(v, skip_rest_enabled, a, b);
    lemma_countdown(v, skip_rest_enabled, a);
    assert(b.drop_first().len() == 0);
    assert(b[0] == nows[nows.len() - 1]);
    let mid = run_ticks(v, skip_rest_enabled, a).0;
    let step = tick_spec(mid, skip_rest_enabled, b[0]);
    assert(run_ticks(step.0, skip_rest_enabled, b.drop_first()) == (
        step.0,
        Seq::<EngineTransition>::empty(),
    ));
    assert(run_ticks(mid, skip_rest_enabled, b).1 =~= seq![step.1]);
    let r = run_ticks(v, skip_rest_enabled, nows);
    assert forall|i: int| 0 <= i < nows.len() - 1 implies #[trigger] r.1[i]
        == EngineTransition::Continue by {
        assert(run_ticks(v, skip_rest_enabled, a).1[i] == EngineTransition::Continue);
    }
}

/// One full rhythm: from a new engine, `focus + 1` seconds end the focus
/// period, `rest + 1` more seconds end the rest, and the engine is back where
/// it started. The switch to rest is reported at second `focus`, the completed
/// rest at second `focus + rest + 1`, and nothing at any other second.
pub proof fn lemma_full_cycle(focus_seconds: u64, rest_seconds: u64, nows: Seq<i64>)
    requires
        nows.len() == focus_seconds + rest_seconds + 2,
    ensures
        ({
            let r = run_ticks(fresh_engine(focus_seconds, rest_seconds), false, nows);
            let f = focus_seconds as int;
            let last = nows.len() - 1;
            &&& r.0 == fresh_engine(focus_seconds, rest_seconds)
            &&& r.1.len() == nows.len()
            &&& r.1[f] == (EngineTransition::FocusToRest {
                scheduled_rest_seconds: rest_seconds,
                started_at_epoch: nows[f],
            })
            &&& r.1[last] == (EngineTransition::RestCompleted {
                scheduled_rest_seconds: rest_seconds,
                actual_rest_seconds: elapsed_seconds(nows[f], nows[last]),
                started_at_epoch: nows[f],
                ended_at_epoch: nows[last],
            })
            &&& forall|i: int|
                0 <= i < nows.len() && i != f && i != last ==> #[trigger] r.1[i]
                    == EngineTransition::Continue
        }),
{
    let v = fresh_engine(focus_seconds, rest_seconds);
    let f = focus_seconds as int;
    let a = nows.take(f + 1);
    let b = nows.skip(f + 1);
    assert(a + b =~= nows);
    lemma_run_split(v, false, a, b);
    lemma_focus_period_ends(v, false, a);
    let mid = run_ticks(v, false, a).0;
    assert(a[a.len() - 1] == nows[f]);
    assert(mid == v.rest_started(nows[f]));
    lemma_rest_period_ends(mid, false, b);
    assert(b[b.len() - 1] == nows[nows.len() - 1]);
    let r = run_ticks(v, false, nows);
    let ra = run_ticks(v, false, a);
    let rb = run_ticks(mid, false, b);
    assert(r.1 == ra.1 + rb.1);
    assert(r.1[f] == ra.1[f]);
    assert(r.1[nows.len() - 1] == rb.1[b.len() - 1]);
    assert forall|i: int|
        0 <= i < nows.len() && i != f && i != nows.len() - 1 implies #[trigger] r.1[i]
        == EngineTransition::Continue by {
        if i < f {
            assert(ra.1[i] == EngineTransition::Continue);
        } else {
            assert(rb.1[i - f - 1] == EngineTransition::Continue);
        }
    }
}

/// With rest skipped, a new engine reports the switch to rest after
/// `focus + 1` seconds and is then back at the start of a focus period.
pub proof fn lemma_skip_cycle(focus_seconds: u64, rest_seconds: u64, nows: Seq<i64>)
    requires
        nows.len() == focus_seconds + 1,
    ensures
        ({
            let r = run_ticks(fresh_engine(focus_seconds, rest_seconds), true, nows);
            &&& r.0 == fresh_engine(focus_seconds, rest_seconds)
            &&& r.1[focus_seconds as int] == (EngineTransition::FocusToRest {
                scheduled_rest_seconds: rest_seconds,
                started_at_epoch: nows[focus_seconds as int],
            })
            &&& forall|i: int| 0 <= i < focus_seconds ==> #[trigger] r.1[i] == EngineTransition::Continue
        }),
{
    lemma_focus_period_ends(fresh_engine(focus_seconds, rest_seconds), true, nows);
}

} // verus!
