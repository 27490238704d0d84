//! Laws of the timer over whole histories of calls: the engine is resting
//! exactly while a rest that some call started has not been ended by a later
//! call, and a rest that runs out reports the start that the call which began
//! it reported.

use vstd::prelude::*;
use crate::timer_engine::{EngineTransition, EngineView, Phase, elapsed_seconds, fresh_engine, tick_spec};

verus! {

/// A call on a [`TimerEngine`](crate::timer_engine::TimerEngine), with the
/// clock reading it uses where it reads one.
pub enum EngineCall {
    /// `tick` / `tick_at`.
    Tick { skip_rest_enabled: bool, now_epoch: i64 },
    /// `start_rest_now` / `start_rest_at`.
    StartRest { now_epoch: i64 },
    /// `force_back_to_focus`.
    ForceBackToFocus,
    /// `reset_focus`.
    ResetFocus,
    /// `update_schedule`.
    UpdateSchedule { focus_seconds: u64, rest_seconds: u64 },
}

/// What a call does to the engine, and the transition it reports, if any.
/// This is what the contract of the corresponding method states.
pub open spec fn call_spec(v: EngineView, c: EngineCall) -> (EngineView, Option<EngineTransition>) {
    match c {
        EngineCall::Tick { skip_rest_enabled, now_epoch } => {
            let r = tick_spec(v, skip_rest_enabled, now_epoch);
            (r.0, Some(r.1))
        },
        EngineCall::StartRest { now_epoch } => (
            v.rest_started(now_epoch),
            Some(
                EngineTransition::FocusToRest {
                    scheduled_rest_seconds: v.rest_seconds,
                    started_at_epoch: now_epoch,
                },
            ),
        ),
        EngineCall::ForceBackToFocus => (v.focus_restarted(), None),
        EngineCall::ResetFocus => (v.focus_restarted(), None),
        EngineCall::UpdateSchedule { focus_seconds, rest_seconds } => (
            v.rescheduled(focus_seconds, rest_seconds),
            None,
        ),
    }
}

/// The engine after the calls `calls`, in order, and what each reported.
pub open spec fn run_calls(v: EngineView, calls: Seq<EngineCall>) -> (
    EngineView,
    Seq<Option<EngineTransition>>,
)
    decreases calls.len(),
{
    if calls.len() == 0 {
        (v, Seq::empty())
    } else {
        let prev = run_calls(v, calls.drop_last());
        let step = call_spec(prev.0, calls.last());
        (step.0, prev.1.push(step.1))
    }
}

/// The call starts a rest: "rest now", or a tick (rest not skipped) that
/// reports the switch to rest.
pub open spec fn starts_rest(c: EngineCall, t: Option<EngineTransition>) -> bool {
    match c {
        EngineCall::StartRest { .. } => true,
        EngineCall::Tick { skip_rest_enabled, .. } => !skip_rest_enabled && (t matches Some(
            EngineTransition::FocusToRest { .. },
        )),
        _ => false,
    }
}

/// The call ends any rest: a reset, a return to focus, or a tick that
/// reports a completed rest.
pub open spec fn ends_rest(c: EngineCall, t: Option<EngineTransition>) -> bool {
    match c {
        EngineCall::ForceBackToFocus => true,
        EngineCall::ResetFocus => true,
        EngineCall::Tick { .. } => t matches Some(EngineTransition::RestCompleted { .. }),
        _ => false,
    }
}

/// The rest start a transition reports.
pub open spec fn reported_start(t: Option<EngineTransition>) -> i64 {
    match t {
        Some(EngineTransition::FocusToRest { started_at_epoch, .. }) => started_at_epoch,
        _ => 0,
    }
}

/// The start reported by the latest call of `calls` that started a rest,
/// provided no later call ended it; `None` when there is no such rest.
/// `reported[i]` is what `calls[i]` reported.
pub open spec fn open_rest_start(calls: Seq<EngineCall>, reported: Seq<Option<EngineTransition>>) -> Option<i64>
    decreases calls.len(),
{
    if calls.len() == 0 {
        None
    } else {
        let c = calls.last();
        let t = reported[calls.len() - 1];
        if starts_rest(c, t) {
            Some(reported_start(t))
        } else if ends_rest(c, t) {
            None
        } else {
            open_rest_start(calls.drop_last(), reported.subrange(0, calls.len() - 1))
        }
    }
}

/// The focus and rest lengths last given: by the latest schedule update, or
/// else at creation.
pub open spec fn current_schedule(focus_seconds: u64, rest_seconds: u64, calls: Seq<EngineCall>) -> (u64, u64)
    decreases calls.len(),
{
    if calls.len() == 0 {
        (focus_seconds, rest_seconds)
    } else {
        match calls.last() {
            EngineCall::UpdateSchedule { focus_seconds: f, rest_seconds: r } => (f, r),
            _ => current_schedule(focus_seconds, rest_seconds, calls.drop_last()),
        }
    }
}

/// For an engine created with lengths `focus_seconds` / `rest_seconds` and
/// then given the calls `calls`: it is resting exactly when a rest that some
/// call started has not been ended by a later call, the rest start it keeps
/// is the one that call reported, and it runs the lengths last given.
pub proof fn lemma_history_state(focus_seconds: u64, rest_seconds: u64, calls: Seq<EngineCall>)
    ensures
        ({
            let run = run_calls(fresh_engine(focus_seconds, rest_seconds), calls);
            let open = open_rest_start(calls, run.1);
            &&& run.1.len() == calls.len()
            &&& run.0.well_formed()
            &&& (run.0.phase == Phase::Resting) == open.is_some()
            &&& run.0.rest_started_at_epoch == open
            &&& (run.0.focus_seconds, run.0.rest_seconds) == current_schedule(
                focus_seconds,
                rest_seconds,
                calls,
            )
        }),
    decreases calls.len(),
{
    if calls.len() > 0 {
        let v0 = fresh_engine(focus_seconds, rest_seconds);
        lemma_history_state(focus_seconds, rest_seconds, calls.drop_last());
        let prev = run_calls(v0, calls.drop_last());
        let run = run_calls(v0, calls);
        assert(run.1.subrange(0, calls.len() - 1) =~= prev.1);
    }
}

/// What the first `k` calls report is the start of what all calls report.
pub proof fn lemma_history_prefix(v: EngineView, calls: Seq<EngineCall>, k: int)
    requires
        0 <= k <= calls.len(),
    ensures
        run_calls(v, calls.take(k)).1 == run_calls(v, calls).1.take(k),
        run_calls(v, calls).1.len() == calls.len(),
    decreases calls.len(),
{
    if calls.len() > 0 {
        lemma_history_prefix(v, calls.drop_last(), if k < calls.len() { k } else { 0 });
        if k == calls.len() {
            assert(calls.take(k) =~= calls);
            assert(run_calls(v, calls).1.take(k) =~= run_calls(v, calls).1);
        } else {
            assert(calls.drop_last().take(k) =~= calls.take(k));
            assert(run_calls(v, calls).1.take(k) =~= run_calls(v, calls.drop_last()).1.take(k));
        }
    } else {
        assert(calls.take(k) =~= calls);
    }
}

/// A rest that runs out reports the rest length last given, its start as
/// reported by the call that began it, its end at the tick's clock reading,
/// and the time between the two (never negative); the engine then starts a
/// focus period of the focus length last given. This holds whether or not
/// rest-skip mode is on for that tick.
pub proof fn lemma_completed_rest_reports_its_start(
    focus_seconds: u64,
    rest_seconds: u64,
    calls: Seq<EngineCall>,
    k: int,
    skip_rest_enabled: bool,
    now_epoch: i64,
)
    requires
        0 <= k < calls.len(),
        calls[k] == (EngineCall::Tick { skip_rest_enabled, now_epoch }),
        run_calls(fresh_engine(focus_seconds, rest_seconds), calls.take(k)).0.phase == Phase::Resting,
        run_calls(fresh_engine(focus_seconds, rest_seconds), calls.take(k)).0.remaining_seconds == 0,
    ensures
        ({
            let v0 = fresh_engine(focus_seconds, rest_seconds);
            let reported = run_calls(v0, calls).1;
            let schedule = current_schedule(focus_seconds, rest_seconds, calls.take(k));
            let after = run_calls(v0, calls.take(k + 1)).0;
            &&& open_rest_start(calls.take(k), reported.take(k)) matches Some(s)
            &&& reported[k] == Some(
                EngineTransition::RestCompleted {
                    scheduled_rest_seconds: schedule.1,
                    actual_rest_seconds: elapsed_seconds(s, now_epoch),
                    started_at_epoch: s,
                    ended_at_epoch: now_epoch,
                },
            )
            &&& after.phase == Phase::Focusing
            &&& after.remaining_seconds == schedule.0
        }),
{
    let v0 = fresh_engine(focus_seconds, rest_seconds);
    lemma_history_state(focus_seconds, rest_seconds, calls.take(k));
    lemma_history_prefix(v0, calls, k);
    lemma_history_prefix(v0, calls, k + 1);
    let pre = run_calls(v0, calls.take(k));
    let post = run_calls(v0, calls.take(k + 1));
    assert(calls.take(k + 1).drop_last() =~= calls.take(k));
    assert(calls.take(k + 1).last() == calls[k]);
    assert(post.1[k] == run_calls(v0, calls).1.take(k + 1)[k]);
}

/// Every call is a tick (each with its own rest-skip flag and clock reading).
pub open spec fn all_ticks(calls: Seq<EngineCall>) -> bool {
    forall|i: int| 0 <= i < calls.len() ==> (#[trigger] calls[i] is Tick)
}

/// The first `k` ticks, with `k` not past the countdown, only count down and
/// report nothing else, whatever their flags and readings.
pub proof fn lemma_ticks_count_down(v: EngineView, calls: Seq<EngineCall>, k: int)
    requires
        all_ticks(calls),
        0 <= k <= calls.len(),
        k <= v.remaining_seconds,
    ensures
        run_calls(v, calls.take(k)).0 == (EngineView {
            remaining_seconds: (v.remaining_seconds - k) as u64,
            ..v
        }),
        forall|i: int| 0 <= i < k ==> #[trigger] run_calls(v, calls.take(k)).1[i] == Some(
            EngineTransition::Continue,
        ),
        run_calls(v, calls.take(k)).1.len() == k,
    decreases k,
{
    if k == 0 {
        assert(calls.take(0) =~= Seq::<EngineCall>::empty());
    } else {
        lemma_ticks_count_down(v, calls, k - 1);
        assert(calls.take(k).drop_last() =~= calls.take(k - 1));
        assert(calls.take(k).last() == calls[k - 1]);
        assert(calls[k - 1] is Tick);
        let prev = run_calls(v, calls.take(k - 1));
        let now = run_calls(v, calls.take(k));
        assert forall|i: int| 0 <= i < k implies #[trigger] now.1[i] == Some(
            EngineTransition::Continue,
        ) by {
            if i < k - 1 {
                assert(now.1[i] == prev.1[i]);
            }
        }
    }
}

/// From any well-formed state with `r` seconds left, the next `r` ticks
/// report nothing but the countdown and the tick after them ends the phase —
/// the switch to rest when focusing, the completed rest when resting —
/// whatever rest-skip flag each tick is given.
pub proof fn lemma_phase_ends_after_countdown(v: EngineView, calls: Seq<EngineCall>)
    requires
        v.well_formed(),
        all_ticks(calls),
        calls.len() == v.remaining_seconds + 1,
    ensures
        ({
            let reported = run_calls(v, calls).1;
            let r = v.remaining_seconds as int;
            &&& reported.len() == calls.len()
            &&& forall|i: int| 0 <= i < r ==> #[trigger] reported[i] == Some(EngineTransition::Continue)
            &&& v.phase == Phase::Focusing ==> (reported[r] matches Some(
                EngineTransition::FocusToRest { scheduled_rest_seconds, .. },
            ) && scheduled_rest_seconds == v.rest_seconds)
            &&& v.phase == Phase::Resting ==> (reported[r] matches Some(
                EngineTransition::RestCompleted { scheduled_rest_seconds, started_at_epoch, .. },
            ) && scheduled_rest_seconds == v.rest_seconds && Some(started_at_epoch)
                == v.rest_started_at_epoch)
        }),
{
    let r = v.remaining_seconds as int;
    lemma_ticks_count_down(v, calls, r);
    lemma_history_prefix(v, calls, r);
    assert(calls.take(r + 1) =~= calls);
    assert(calls.drop_last() =~= calls.take(r));
    assert(calls.last() == calls[r]);
    assert(calls[r] is Tick);
    let reported = run_calls(v, calls).1;
    let prefix = run_calls(v, calls.take(r)).1;
    assert forall|i: int| 0 <= i < r implies #[trigger] reported[i] == Some(
        EngineTransition::Continue,
    ) by {
        assert(reported.take(r)[i] == prefix[i]);
    }
}

} // verus!
