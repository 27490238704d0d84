//! The decisions of the running application, shared by the panel and the
//! background loop: what happens to the timer, the rest history and the
//! pending rest when a second passes, a rest starts or ends, the overlay is
//! closed early, or the screen locks. The caller performs the outside work
//! (overlay, disk, clock) and reports back.

use vstd::prelude::*;
use crate::config::{AppConfig, in_range, normalized};
use crate::session::{SessionStore, SessionView, keep_latest, completed_session, skipped_session};
use crate::timer_engine::{EngineTransition, EngineView, Phase, TimerEngine, tick_spec};

verus! {

/// A rest that started and has not ended yet.
#[derive(Debug, Clone, Copy, PartialEq, Eq, Structural)]
pub struct PendingRest {
    pub started_at_epoch: i64,
    pub scheduled_rest_seconds: u64,
}

/// What to do with the seconds that passed since the last step.
#[derive(Debug, Clone, Copy, PartialEq, Eq, Structural)]
pub enum CatchUp {
    /// Less than a second: nothing yet.
    Wait,
    /// Advance the timer this many seconds.
    Advance(u64),
    /// The application was stopped too long (sleep, debugger): start a new
    /// focus period instead.
    Reset,
}

/// A gap of this many seconds or more is treated as an interruption.
pub const INTERRUPTION_SECONDS: u64 = 10;

/// The reason recorded when rest-skip mode skips a rest.
pub const SKIP_MODE_REASON: &'static str = "skip-mode";

/// The reason recorded when the overlay is closed with ESC.
pub const ESC_REASON: &'static str = "esc";

/// What to do after `elapsed` seconds.
pub open spec fn catch_up_plan(elapsed: u64) -> CatchUp {
    if elapsed >= INTERRUPTION_SECONDS {
        CatchUp::Reset
    } else if elapsed < 1 {
        CatchUp::Wait
    } else {
        CatchUp::Advance(elapsed)
    }
}

/// Plans the timer's catch-up after `elapsed` seconds.
pub fn catch_up(elapsed: u64) -> (c: CatchUp)
    ensures
        c == catch_up_plan(elapsed),
        (c == CatchUp::Reset) <==> elapsed >= INTERRUPTION_SECONDS,
        (c == CatchUp::Wait) <==> elapsed == 0,
        1 <= elapsed < INTERRUPTION_SECONDS ==> c == CatchUp::Advance(elapsed),
{
    if elapsed >= INTERRUPTION_SECONDS {
        CatchUp::Reset
    } else if elapsed < 1 {
        CatchUp::Wait
    } else {
        CatchUp::Advance(elapsed)
    }
}

/// An interruption of [`INTERRUPTION_SECONDS`] or more resets the focus
/// period; a shorter lag is caught up second by second; no lag waits.
pub proof fn lemma_catch_up_plan(elapsed: u64)
    ensures
        (catch_up_plan(elapsed) == CatchUp::Reset) <==> elapsed >= INTERRUPTION_SECONDS,
        (catch_up_plan(elapsed) == CatchUp::Wait) <==> elapsed == 0,
        1 <= elapsed < INTERRUPTION_SECONDS ==> catch_up_plan(elapsed) == CatchUp::Advance(elapsed),
{
}

/// The lock probe starts a process, so it runs at most once per this many
/// milliseconds.
pub const LOCK_POLL_INTERVAL_MILLIS: u128 = 2000;

/// Whether the lock probe is due, `elapsed_millis` after it last ran.
pub fn lock_poll_due(elapsed_millis: u128) -> (due: bool)
    ensures
        due == (elapsed_millis >= LOCK_POLL_INTERVAL_MILLIS),
{
    elapsed_millis >= LOCK_POLL_INTERVAL_MILLIS
}

/// The abstract state of a [`RhythmCore`].
pub struct RhythmView {
    pub config: AppConfig,
    pub sessions: Seq<SessionView>,
    pub engine: EngineView,
    pub pending_rest: Option<PendingRest>,
    pub last_lock_state: bool,
}

impl RhythmView {
    /// The settings are in range and the timer runs exactly the configured
    /// schedule.
    pub open spec fn consistent(self) -> bool {
        &&& in_range(self.config)
        &&& self.engine.focus_seconds == self.config.focus_minutes * 60
        &&& self.engine.rest_seconds == self.config.rest_seconds
        &&& self.engine.well_formed()
    }
}

/// The running application's state: settings, rest history, timer, the rest
/// in progress, and the last lock state seen.
pub struct RhythmCore {
    config: AppConfig,
    sessions: SessionStore,
    engine: TimerEngine,
    pending_rest: Option<PendingRest>,
    last_lock_state: bool,
}

impl View for RhythmCore {
    type V = RhythmView;

    closed spec fn view(&self) -> RhythmView {
        RhythmView {
            config: self.config,
            sessions: self.sessions@,
            engine: self.engine@,
            pending_rest: self.pending_rest,
            last_lock_state: self.last_lock_state,
        }
    }
}

impl RhythmCore {
    #[verifier::type_invariant]
    closed spec fn inv(self) -> bool {
        self@.consistent()
    }

    /// Every state a caller can hold is consistent: the settings are in range
    /// and the timer runs exactly the configured schedule.
    /// Calling this does nothing at run time; it hands the invariant to the
    /// caller's proof.
    pub fn ensure_consistent(&self)
        ensures
            self@.consistent(),
    {
        proof {
            use_type_invariant(self);
        }
    }

    /// Starts with the given settings, brought into range, and history; the
    /// timer starts a focus period of the configured length.
    pub fn new(config: AppConfig, sessions: SessionStore) -> (c: Self)
        ensures
            c@.config == normalized(config),
            c@.sessions == sessions@,
            c@.engine.remaining_seconds == c@.engine.focus_seconds,
            c@.engine.phase == Phase::Focusing,
            c@.pending_rest.is_none(),
            !c@.last_lock_state,
            c@.consistent(),
    {
        let mut config = config;
        config.normalize();
        let engine = TimerEngine::new(config.focus_minutes * 60, config.rest_seconds);
        RhythmCore { config, sessions, engine, pending_rest: None, last_lock_state: false }
    }

    /// The current settings.
    pub fn config(&self) -> (c: AppConfig)
        ensures
            c == self@.config,
    {
        self.config
    }

    /// The rest history.
    pub fn sessions(&self) -> (s: &SessionStore)
        ensures
            s@ == self@.sessions,
    {
        &self.sessions
    }

    /// The timer.
    pub fn engine(&self) -> (e: &TimerEngine)
        ensures
            e@ == self@.engine,
    {
        &self.engine
    }

    /// The rest in progress, if any.
    pub fn pending_rest(&self) -> (p: Option<PendingRest>)
        ensures
            p == self@.pending_rest,
    {
        self.pending_rest
    }

    /// Takes the timer out, leaving a new one of the same schedule in its place.
    fn take_engine(&mut self) -> (e: TimerEngine)
        ensures
            e@ == old(self)@.engine,
            e@.well_formed(),
            final(self)@.config == old(self)@.config,
            final(self)@.sessions == old(self)@.sessions,
            final(self)@.pending_rest == old(self)@.pending_rest,
            final(self)@.last_lock_state == old(self)@.last_lock_state,
    {
        proof {
            use_type_invariant(&*self);
        }
        let mut e = TimerEngine::new(self.config.focus_minutes * 60, self.config.rest_seconds);
        std::mem::swap(&mut e, &mut self.engine);
        e
    }

    /// Puts a timer of the configured schedule back.
    fn put_engine(&mut self, e: TimerEngine)
        requires
            e@.focus_seconds == old(self)@.config.focus_minutes * 60,
            e@.rest_seconds == old(self)@.config.rest_seconds,
            e@.well_formed(),
        ensures
            final(self)@.engine == e@,
            final(self)@.config == old(self)@.config,
            final(self)@.sessions == old(self)@.sessions,
            final(self)@.pending_rest == old(self)@.pending_rest,
            final(self)@.last_lock_state == old(self)@.last_lock_state,
    {
        proof {
            use_type_invariant(&*self);
        }
        let mut e = e;
        std::mem::swap(&mut e, &mut self.engine);
    }

    /// Takes the history out, leaving an empty one in its place.
    fn take_sessions(&mut self) -> (s: SessionStore)
        ensures
            s@ == old(self)@.sessions,
            old(self)@.consistent(),
            final(self)@.engine == old(self)@.engine,
            final(self)@.config == old(self)@.config,
            final(self)@.pending_rest == old(self)@.pending_rest,
            final(self)@.last_lock_state == old(self)@.last_lock_state,
    {
        proof {
            use_type_invariant(&*self);
        }
        let mut s = SessionStore::default();
        std::mem::swap(&mut s, &mut self.sessions);
        s
    }

    /// New settings: they are brought into range and take effect on the
    /// timer at once (the current phase restarts with its new length).
    pub fn apply_config(&mut self, config: AppConfig)
        ensures
            final(self)@.config == normalized(config),
            final(self)@.engine.phase == old(self)@.engine.phase,
            final(self)@.engine.rest_started_at_epoch == old(self)@.engine.rest_started_at_epoch,
            final(self)@.engine.remaining_seconds == final(self)@.engine.phase_length(),
            final(self)@.sessions == old(self)@.sessions,
            final(self)@.pending_rest == old(self)@.pending_rest,
            final(self)@.last_lock_state == old(self)@.last_lock_state,
            final(self)@.consistent(),
    {
        let mut config = config;
        config.normalize();
        let mut engine = self.take_engine();
        let sessions = self.take_sessions();
        engine.update_schedule(config.focus_minutes * 60, config.rest_seconds);
        *self = RhythmCore {
            config,
            sessions,
            engine,
            pending_rest: self.pending_rest,
            last_lock_state: self.last_lock_state,
        };
    }

    /// One second passes with the clock reading `now_epoch`; rest is skipped
    /// when the settings say so.
    pub fn tick_second(&mut self, now_epoch: i64) -> (t: EngineTransition)
        ensures
            (final(self)@.engine, t) == tick_spec(
                old(self)@.engine,
                old(self)@.config.skip_rest_enabled,
                now_epoch,
            ),
            final(self)@.config == old(self)@.config,
            final(self)@.sessions == old(self)@.sessions,
            final(self)@.pending_rest == old(self)@.pending_rest,
            final(self)@.last_lock_state == old(self)@.last_lock_state,
            final(self)@.consistent(),
    {
        proof {
            use_type_invariant(&*self);
        }
        let mut engine = self.take_engine();
        let t = engine.tick_at(self.config.skip_rest_enabled, now_epoch);
        self.put_engine(engine);
        proof {
            use_type_invariant(&*self);
        }
        t
    }

    /// "Rest now": a rest starts at once at clock reading `now_epoch`.
    pub fn start_rest(&mut self, now_epoch: i64) -> (t: EngineTransition)
        ensures
            final(self)@.engine == old(self)@.engine.rest_started(now_epoch),
            t == (EngineTransition::FocusToRest {
                scheduled_rest_seconds: old(self)@.config.rest_seconds,
                started_at_epoch: now_epoch,
            }),
            final(self)@.config == old(self)@.config,
            final(self)@.sessions == old(self)@.sessions,
            final(self)@.pending_rest == old(self)@.pending_rest,
            final(self)@.last_lock_state == old(self)@.last_lock_state,
            final(self)@.consistent(),
    {
        proof {
            use_type_invariant(&*self);
        }
        let mut engine = self.take_engine();
        let t = engine.start_rest_at(now_epoch);
        self.put_engine(engine);
        proof {
            use_type_invariant(&*self);
        }
        t
    }

    /// Starts a new focus period and forgets the rest in progress (reset by
    /// hand, screen lock, or a long interruption).
    pub fn reset_focus(&mut self)
        ensures
            final(self)@.engine == old(self)@.engine.focus_restarted(),
            final(self)@.pending_rest.is_none(),
            final(self)@.config == old(self)@.config,
            final(self)@.sessions == old(self)@.sessions,
            final(self)@.last_lock_state == old(self)@.last_lock_state,
            final(self)@.consistent(),
    {
        proof {
            use_type_invariant(&*self);
        }
        let mut engine = self.take_engine();
        engine.reset_focus();
        self.put_engine(engine);
        self.pending_rest = None;
        proof {
            use_type_invariant(&*self);
        }
    }

    /// A rest began: it is remembered until it ends.
    pub fn begin_rest(&mut self, scheduled_rest_seconds: u64, started_at_epoch: i64)
        ensures
            final(self)@.pending_rest == Some(
                PendingRest { started_at_epoch, scheduled_rest_seconds },
            ),
            final(self)@.engine == old(self)@.engine,
            final(self)@.config == old(self)@.config,
            final(self)@.sessions == old(self)@.sessions,
            final(self)@.last_lock_state == old(self)@.last_lock_state,
            final(self)@.consistent(),
    {
        proof {
            use_type_invariant(&*self);
        }
        self.pending_rest = Some(PendingRest { started_at_epoch, scheduled_rest_seconds });
        proof {
            use_type_invariant(&*self);
        }
    }

    /// Once the overlay of a rest is up: with rest-skip mode on, the rest is
    /// recorded as skipped (reason `skip-mode`, ending at `now_epoch`), forgotten,
    /// and a new focus period starts; the result says whether that happened.
    /// With the mode off nothing changes.
    pub fn skip_rest_if_enabled(
        &mut self,
        scheduled_rest_seconds: u64,
        started_at_epoch: i64,
        now_epoch: i64,
    ) -> (skipped: bool)
        ensures
            skipped == old(self)@.config.skip_rest_enabled,
            skipped ==> {
                &&& final(self)@.sessions == keep_latest(
                    old(self)@.sessions.push(
                        skipped_session(
                            scheduled_rest_seconds,
                            started_at_epoch,
                            now_epoch,
                            SKIP_MODE_REASON@,
                        ),
                    ),
                )
                &&& final(self)@.pending_rest.is_none()
                &&& final(self)@.engine == old(self)@.engine.focus_restarted()
            },
            !skipped ==> final(self)@ == old(self)@,
            final(self)@.config == old(self)@.config,
            final(self)@.last_lock_state == old(self)@.last_lock_state,
            final(self)@.consistent(),
    {
        proof {
            use_type_invariant(&*self);
        }
        if !self.config.skip_rest_enabled {
            return false;
        }
        let mut sessions = self.take_sessions();
        sessions.push_skipped(
            scheduled_rest_seconds,
            started_at_epoch,
            now_epoch,
            SKIP_MODE_REASON,
        );
        self.sessions = sessions;
        self.pending_rest = None;
        let mut engine = self.take_engine();
        engine.force_back_to_focus();
        self.put_engine(engine);
        proof {
            use_type_invariant(&*self);
        }
        true
    }

    /// A rest ran to its end: it is recorded as completed and forgotten.
    pub fn finish_rest(
        &mut self,
        scheduled_rest_seconds: u64,
        actual_rest_seconds: u64,
        started_at_epoch: i64,
        ended_at_epoch: i64,
    )
        ensures
            final(self)@.sessions == keep_latest(
                old(self)@.sessions.push(
                    completed_session(
                        scheduled_rest_seconds,
                        actual_rest_seconds,
                        started_at_epoch,
                        ended_at_epoch,
                    ),
                ),
            ),
            final(self)@.pending_rest.is_none(),
            final(self)@.engine == old(self)@.engine,
            final(self)@.config == old(self)@.config,
            final(self)@.last_lock_state == old(self)@.last_lock_state,
            final(self)@.consistent(),
    {
        proof {
            use_type_invariant(&*self);
        }
        let mut sessions = self.take_sessions();
        sessions.push_completed(
            scheduled_rest_seconds,
            actual_rest_seconds,
            started_at_epoch,
            ended_at_epoch,
        );
        self.sessions = sessions;
        self.pending_rest = None;
        proof {
            use_type_invariant(&*self);
        }
    }

    /// The overlay was closed early (ESC) at clock reading `now_epoch`. While
    /// resting, the rest is recorded as skipped with reason `esc` — the rest
    /// in progress if one is remembered, else one of the configured length
    /// ending now — and a new focus period starts; the result says whether
    /// that happened. While focusing nothing changes.
    pub fn overlay_skipped(&mut self, now_epoch: i64) -> (recorded: bool)
        requires
            old(self)@.engine.phase == Phase::Resting && old(self)@.pending_rest.is_none()
                ==> now_epoch - old(self)@.config.rest_seconds >= i64::MIN,
        ensures
            recorded == (old(self)@.engine.phase == Phase::Resting),
            recorded ==> {
                &&& final(self)@.sessions == keep_latest(
                    old(self)@.sessions.push(
                        match old(self)@.pending_rest {
                            Some(p) => skipped_session(
                                p.scheduled_rest_seconds,
                                p.started_at_epoch,
                                now_epoch,
                                ESC_REASON@,
                            ),
                            None => skipped_session(
                                old(self)@.config.rest_seconds,
                                (now_epoch - old(self)@.config.rest_seconds) as i64,
                                now_epoch,
                                ESC_REASON@,
                            ),
                        },
                    ),
                )
                &&& final(self)@.pending_rest.is_none()
                &&& final(self)@.engine == old(self)@.engine.focus_restarted()
            },
            !recorded ==> final(self)@ == old(self)@,
            final(self)@.config == old(self)@.config,
            final(self)@.last_lock_state == old(self)@.last_lock_state,
            final(self)@.consistent(),
    {
        proof {
            use_type_invariant(&*self);
        }
        if self.engine.phase() != Phase::Resting {
            return false;
        }
        let mut sessions = self.take_sessions();
        match self.pending_rest {
            Some(p) => {
                sessions.push_skipped(
                    p.scheduled_rest_seconds,
                    p.started_at_epoch,
                    now_epoch,
                    ESC_REASON,
                );
            },
            None => {
                let rest = self.config.rest_seconds;
                let started = now_epoch - rest as i64;
                sessions.push_skipped(rest, started, now_epoch, ESC_REASON);
            },
        }
        self.sessions = sessions;
        self.pending_rest = None;
        let mut engine = self.take_engine();
        engine.force_back_to_focus();
        self.put_engine(engine);
        proof {
            use_type_invariant(&*self);
        }
        true
    }

    /// The screen lock was observed in state `locked`. When the screen has
    /// just become locked, a new focus period starts and the rest in progress
    /// is forgotten; the result says whether that happened. A screen that
    /// stays locked does not reset the timer again.
    pub fn lock_observed(&mut self, locked: bool) -> (reset: bool)
        ensures
            reset == (locked && !old(self)@.last_lock_state),
            final(self)@.last_lock_state == locked,
            reset ==> final(self)@.engine == old(self)@.engine.focus_restarted()
                && final(self)@.pending_rest.is_none(),
            !reset ==> final(self)@.engine == old(self)@.engine && final(self)@.pending_rest
                == old(self)@.pending_rest,
            final(self)@.config == old(self)@.config,
            final(self)@.sessions == old(self)@.sessions,
            final(self)@.consistent(),
    {
        let reset = locked && !self.last_lock_state;
        if reset {
            self.reset_focus();
        }
        proof {
            use_type_invariant(&*self);
        }
        self.last_lock_state = locked;
        proof {
            use_type_invariant(&*self);
        }
        reset
    }
}

} // verus!
