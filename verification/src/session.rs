//! The history of rests: one record per rest taken or skipped, oldest first,
//! capped at the latest [`MAX_SESSIONS`].

use vstd::prelude::*;
use vstd::string::*;
use crate::text::{i64_text, signed_text};

verus! {

/// How many records the history keeps; older ones are dropped.
pub const MAX_SESSIONS: usize = 1000;

/// One rest. `skipped` is set when the rest was skipped (by rest-skip mode
/// or by ESC), with the reason in `skip_reason`.
#[derive(Debug, Clone)]
pub struct RestSession {
    pub id: String,
    pub scheduled_rest_seconds: u64,
    pub actual_rest_seconds: u64,
    pub started_at_epoch: i64,
    pub ended_at_epoch: i64,
    pub skipped: bool,
    pub skip_reason: Option<String>,
    pub created_at_epoch: i64,
}

/// The abstract value of a [`RestSession`], its texts as character sequences.
pub struct SessionView {
    pub id: Seq<char>,
    pub scheduled_rest_seconds: u64,
    pub actual_rest_seconds: u64,
    pub started_at_epoch: i64,
    pub ended_at_epoch: i64,
    pub skipped: bool,
    pub skip_reason: Option<Seq<char>>,
    pub created_at_epoch: i64,
}

impl View for RestSession {
    type V = SessionView;

    open spec fn view(&self) -> SessionView {
        SessionView {
            id: self.id@,
            scheduled_rest_seconds: self.scheduled_rest_seconds,
            actual_rest_seconds: self.actual_rest_seconds,
            started_at_epoch: self.started_at_epoch,
            ended_at_epoch: self.ended_at_epoch,
            skipped: self.skipped,
            skip_reason: match self.skip_reason {
                Some(r) => Some(r@),
                None => None,
            },
            created_at_epoch: self.created_at_epoch,
        }
    }
}

/// The id of the record of a rest from `started` to `ended`:
/// `session-<started>-<ended>`.
pub open spec fn session_id(started: i64, ended: i64) -> Seq<char> {
    "session-"@ + signed_text(started as int) + "-"@ + signed_text(ended as int)
}

/// The record of a rest that ran to its end.
pub open spec fn completed_session(
    scheduled_rest_seconds: u64,
    actual_rest_seconds: u64,
    started_at_epoch: i64,
    ended_at_epoch: i64,
) -> SessionView {
    SessionView {
        id: session_id(started_at_epoch, ended_at_epoch),
        scheduled_rest_seconds,
        actual_rest_seconds,
        started_at_epoch,
        ended_at_epoch,
        skipped: false,
        skip_reason: None,
        created_at_epoch: ended_at_epoch,
    }
}

/// The record of a rest that was skipped for `reason`.
pub open spec fn skipped_session(
    scheduled_rest_seconds: u64,
    started_at_epoch: i64,
    ended_at_epoch: i64,
    reason: Seq<char>,
) -> SessionView {
    SessionView {
        id: session_id(started_at_epoch, ended_at_epoch),
        scheduled_rest_seconds,
        actual_rest_seconds: 0,
        started_at_epoch,
        ended_at_epoch,
        skipped: true,
        skip_reason: Some(reason),
        created_at_epoch: ended_at_epoch,
    }
}

/// The latest `MAX_SESSIONS` records of a history.
pub open spec fn keep_latest(s: Seq<SessionView>) -> Seq<SessionView> {
    if s.len() <= MAX_SESSIONS {
        s
    } else {
        s.subrange(s.len() - MAX_SESSIONS, s.len() as int)
    }
}

/// The first `limit` records of a history, newest first.
pub open spec fn newest_first(s: Seq<SessionView>, limit: nat) -> Seq<SessionView> {
    let n = if limit < s.len() {
        limit
    } else {
        s.len()
    };
    Seq::new(n, |i: int| s[s.len() - 1 - i])
}

/// The history of rests, oldest first.
#[derive(Debug, Clone)]
pub struct SessionStore {
    sessions: Vec<RestSession>,
}

impl View for SessionStore {
    type V = Seq<SessionView>;

    closed spec fn view(&self) -> Seq<SessionView> {
        self.sessions@.map_values(|r: RestSession| r@)
    }
}

impl Default for SessionStore {
    fn default() -> (s: Self)
        ensures
            s@ == Seq::<SessionView>::empty(),
    {
        let s = SessionStore { sessions: Vec::new() };
        assert(s@ =~= Seq::<SessionView>::empty());
        s
    }
}

fn session_id_text(started_at_epoch: i64, ended_at_epoch: i64) -> (id: String)
    ensures
        id@ == session_id(started_at_epoch, ended_at_epoch),
{
    let mut id = String::from_str("session-");
    let started = i64_text(started_at_epoch);
    let ended = i64_text(ended_at_epoch);
    id.append(started.as_str());
    id.append("-");
    id.append(ended.as_str());
    id
}

impl SessionStore {
    /// A store holding `sessions`, oldest first, as read back from disk.
    pub fn from_sessions(sessions: Vec<RestSession>) -> (s: Self)
        ensures
            s@ == sessions@.map_values(|r: RestSession| r@),
    {
        SessionStore { sessions }
    }

    /// All records, oldest first.
    pub fn sessions(&self) -> (r: &[RestSession])
        ensures
            r@.map_values(|x: RestSession| x@) == self@,
    {
        self.sessions.as_slice()
    }

    /// Number of records.
    pub fn len(&self) -> (n: usize)
        ensures
            n == self@.len(),
    {
        self.sessions.len()
    }

    fn push_record(&mut self, record: RestSession)
        ensures
            final(self)@ == keep_latest(old(self)@.push(record@)),
    {
        self.sessions.push(record);
        assert(self.sessions@.map_values(|r: RestSession| r@) =~= old(self)@.push(record@));
        self.trim_history();
    }

    /// Records a rest that ran to its end.
    pub fn push_completed(
        &mut self,
        scheduled_rest_seconds: u64,
        actual_rest_seconds: u64,
        started_at_epoch: i64,
        ended_at_epoch: i64,
    )
        ensures
            final(self)@ == keep_latest(
                old(self)@.push(
                    completed_session(
                        scheduled_rest_seconds,
                        actual_rest_seconds,
                        started_at_epoch,
                        ended_at_epoch,
                    ),
                ),
            ),
    {
        let record = RestSession {
            id: session_id_text(started_at_epoch, ended_at_epoch),
            scheduled_rest_seconds,
            actual_rest_seconds,
            started_at_epoch,
            ended_at_epoch,
            skipped: false,
            skip_reason: None,
            created_at_epoch: ended_at_epoch,
        };
        self.push_record(record);
    }

    /// Records a skipped rest; `reason` tells how it was skipped
    /// (`skip-mode` or `esc`).
    pub fn push_skipped(
        &mut self,
        scheduled_rest_seconds: u64,
        started_at_epoch: i64,
        ended_at_epoch: i64,
        reason: &str,
    )
        ensures
            final(self)@ == keep_latest(
                old(self)@.push(
                    skipped_session(scheduled_rest_seconds, started_at_epoch, ended_at_epoch, reason@),
                ),
            ),
    {
        let record = RestSession {
            id: session_id_text(started_at_epoch, ended_at_epoch),
            scheduled_rest_seconds,
            actual_rest_seconds: 0,
            started_at_epoch,
            ended_at_epoch,
            skipped: true,
            skip_reason: Some(String::from_str(reason)),
            created_at_epoch: ended_at_epoch,
        };
        self.push_record(record);
    }

    /// The latest `limit` records, newest first.
    pub fn recent(&self, limit: usize) -> (r: Vec<&RestSession>)
        ensures
            r@.len() == newest_first(self@, limit as nat).len(),
            r@.map_values(|x: &RestSession| x@) == newest_first(self@, limit as nat),
            r@.len() == if (limit as int) < self@.len() {
                limit as int
            } else {
                self@.len() as int
            },
            forall|i: int| 0 <= i < r@.len() ==> #[trigger] r@[i]@ == self@[self@.len() - 1 - i],
    {
        let n = self.sessions.len();
        let count = if limit < n {
            limit
        } else {
            n
        };
        let mut out: Vec<&RestSession> = Vec::new();
        let mut i: usize = 0;
        while i < count
            invariant
                n == self.sessions@.len(),
                count <= n,
                count == newest_first(self@, limit as nat).len(),
                i <= count,
                out@.len() == i,
                forall|j: int| 0 <= j < i ==> #[trigger] out@[j] == &self.sessions@[n - 1 - j],
            decreases count - i,
        {
            out.push(&self.sessions[n - 1 - i]);
            i = i + 1;
        }
        assert(out@.map_values(|x: &RestSession| x@) =~= newest_first(self@, limit as nat));
        assert forall|i: int| 0 <= i < out@.len() implies #[trigger] out@[i]@ == self@[self@.len()
            - 1 - i] by {
            assert(out@[i] == &self.sessions@[n - 1 - i]);
        }
        out
    }

    fn trim_history(&mut self)
        ensures
            final(self)@ == keep_latest(old(self)@),
    {
        if self.sessions.len() <= MAX_SESSIONS {
            return;
        }
        let drop_count = self.sessions.len() - MAX_SESSIONS;
        let kept = self.sessions.split_off(drop_count);
        self.sessions = kept;
        assert(self@ =~= keep_latest(old(self)@));
    }
}

/// After any record is added, the history holds at most `MAX_SESSIONS`
/// records, the new record is the newest one, and it is what a listing of the
/// most recent record shows.
pub proof fn lemma_push_then_recent(s: Seq<SessionView>, record: SessionView)
    ensures
        keep_latest(s.push(record)).len() <= MAX_SESSIONS,
        keep_latest(s.push(record)).len() == if s.len() + 1 <= MAX_SESSIONS {
            s.len() + 1
        } else {
            MAX_SESSIONS as nat
        },
        keep_latest(s.push(record)).last() == record,
        newest_first(keep_latest(s.push(record)), 1) == seq![record],
{
    let k = keep_latest(s.push(record));
    assert(newest_first(k, 1) =~= seq![record]);
}

/// Adding a record keeps every earlier record that still fits, in order: the
/// history is the latest `MAX_SESSIONS` records ever added.
pub proof fn lemma_push_keeps_order(s: Seq<SessionView>, record: SessionView, i: int)
    requires
        s.len() <= MAX_SESSIONS,
        0 <= i < s.len(),
        s.len() < MAX_SESSIONS || i > 0,
    ensures
        ({
            let k = keep_latest(s.push(record));
            k[i - (s.len() + 1 - k.len())] == s[i]
        }),
{
}

/// A listing of the most recent records holds `min(limit, len)` of them and
/// its i-th entry is the i-th newest record, whatever the limit.
pub proof fn lemma_newest_first(s: Seq<SessionView>, limit: nat)
    ensures
        newest_first(s, limit).len() == if limit < s.len() {
            limit as int
        } else {
            s.len() as int
        },
        forall|i: int|
            0 <= i < newest_first(s, limit).len() ==> #[trigger] newest_first(s, limit)[i] == s[s.len()
                - 1 - i],
{
}

/// Adding a record puts it last in the history (newest), and the history
/// holds one record more, up to the cap; records are never reordered.
pub proof fn lemma_keep_latest(s: Seq<SessionView>)
    ensures
        keep_latest(s).len() == if s.len() <= MAX_SESSIONS {
            s.len() as int
        } else {
            MAX_SESSIONS as int
        },
        forall|i: int|
            0 <= i < keep_latest(s).len() ==> #[trigger] keep_latest(s)[i] == s[s.len()
                - keep_latest(s).len() + i],
{
}

} // verus!
