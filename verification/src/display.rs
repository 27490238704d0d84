//! The texts the panel and the command line show.

use chrono::{Datelike, Local, TimeZone, Timelike};
use vstd::prelude::*;
use vstd::string::*;
use crate::session::{RestSession, SessionView};
use crate::text::{dec_text, lemma_pad2_len, pad2_text, push_decimal, push_pad2};
use crate::timer_engine::Phase;

verus! {

/// `total` seconds as `MM:SS` (minutes padded to at least two digits).
pub open spec fn clock_text(total: nat) -> Seq<char> {
    pad2_text(total / 60) + ":"@ + pad2_text(total % 60)
}

/// A rest length: whole minutes as `N 分钟`, anything else as `N 秒`.
pub open spec fn rest_length_text(rest_seconds: nat) -> Seq<char> {
    if rest_seconds % 60 == 0 {
        dec_text(rest_seconds / 60) + " 分钟"@
    } else {
        dec_text(rest_seconds) + " 秒"@
    }
}

/// A focus length: `N 分钟`.
pub open spec fn focus_length_text(minutes: nat) -> Seq<char> {
    dec_text(minutes) + " 分钟"@
}

/// The badge of a phase: `专注中` (focusing) or `休息中` (resting).
pub open spec fn phase_text(p: Phase) -> Seq<char> {
    match p {
        Phase::Focusing => "专注中"@,
        Phase::Resting => "休息中"@,
    }
}

/// The number of records: `N 次`.
pub open spec fn count_text(n: nat) -> Seq<char> {
    dec_text(n) + " 次"@
}

/// How a record reads in the panel: `跳过 MM:SS` with the scheduled length
/// for a skipped rest, `完成 MM:SS` with the actual length for a taken one.
pub open spec fn outcome_text(s: SessionView) -> Seq<char> {
    if s.skipped {
        "跳过 "@ + clock_text(s.scheduled_rest_seconds as nat)
    } else {
        "完成 "@ + clock_text(s.actual_rest_seconds as nat)
    }
}

/// `true` or `false`.
pub open spec fn bool_text(b: bool) -> Seq<char> {
    if b {
        "true"@
    } else {
        "false"@
    }
}

/// How a record reads on the command line:
/// `[<id>] scheduled=<N>s actual=<N>s skipped=<bool> reason=<reason or ->`.
pub open spec fn summary_text(s: SessionView) -> Seq<char> {
    "["@ + s.id + "] scheduled="@ + dec_text(s.scheduled_rest_seconds as nat) + "s actual="@
        + dec_text(s.actual_rest_seconds as nat) + "s skipped="@ + bool_text(s.skipped)
        + " reason="@ + match s.skip_reason {
        Some(r) => r,
        None => "-"@,
    }
}

/// `total` seconds as `MM:SS`.
pub fn format_seconds(total: u64) -> (s: String)
    ensures
        s@ == clock_text(total as nat),
{
    let mut s = String::new();
    push_pad2(&mut s, total / 60);
    s.append(":");
    push_pad2(&mut s, total % 60);
    assert(s@ =~= clock_text(total as nat));
    s
}

/// A rest length as the settings card shows it.
pub fn format_rest_text(rest_seconds: u64) -> (s: String)
    ensures
        s@ == rest_length_text(rest_seconds as nat),
{
    let mut s = String::new();
    if rest_seconds % 60 == 0 {
        push_decimal(&mut s, rest_seconds / 60);
        s.append(" 分钟");
    } else {
        push_decimal(&mut s, rest_seconds);
        s.append(" 秒");
    }
    assert(s@ =~= rest_length_text(rest_seconds as nat));
    s
}

/// A focus length as the settings card shows it.
pub fn format_focus_text(minutes: u64) -> (s: String)
    ensures
        s@ == focus_length_text(minutes as nat),
{
    let mut s = String::new();
    push_decimal(&mut s, minutes);
    s.append(" 分钟");
    assert(s@ =~= focus_length_text(minutes as nat));
    s
}

/// The badge of a phase.
pub fn phase_label(p: Phase) -> (s: &'static str)
    ensures
        s@ == phase_text(p),
{
    match p {
        Phase::Focusing => "专注中",
        Phase::Resting => "休息中",
    }
}

/// The number of records as the records card shows it.
pub fn format_count(n: usize) -> (s: String)
    ensures
        s@ == count_text(n as nat),
{
    let mut s = String::new();
    push_decimal(&mut s, n as u64);
    s.append(" 次");
    assert(s@ =~= count_text(n as nat));
    s
}

impl RestSession {
    /// How this record reads in the panel.
    pub fn outcome_label(&self) -> (s: String)
        ensures
            s@ == outcome_text(self@),
    {
        let (mut s, seconds) = if self.skipped {
            (String::from_str("跳过 "), self.scheduled_rest_seconds)
        } else {
            (String::from_str("完成 "), self.actual_rest_seconds)
        };
        let t = format_seconds(seconds);
        s.append(t.as_str());
        s
    }

    /// How this record reads on the command line.
    pub fn summary_line(&self) -> (s: String)
        ensures
            s@ == summary_text(self@),
    {
        let mut s = String::from_str("[");
        s.append(self.id.as_str());
        s.append("] scheduled=");
        push_decimal(&mut s, self.scheduled_rest_seconds);
        s.append("s actual=");
        push_decimal(&mut s, self.actual_rest_seconds);
        s.append("s skipped=");
        s.append(if self.skipped { "true" } else { "false" });
        s.append(" reason=");
        match &self.skip_reason {
            Some(r) => s.append(r.as_str()),
            None => s.append("-"),
        }
        assert(s@ =~= summary_text(self@));
        s
    }
}

/// `MM-DD HH:MM`, each field padded to two digits.
pub open spec fn month_day_time_text(month: nat, day: nat, hour: nat, minute: nat) -> Seq<char> {
    pad2_text(month) + "-"@ + pad2_text(day) + " "@ + pad2_text(hour) + ":"@ + pad2_text(minute)
}

/// The start label of a record, given its local month, day, hour and minute,
/// or `-` when its time has no single local reading.
pub open spec fn local_time_text(parts: Option<(u32, u32, u32, u32)>) -> Seq<char> {
    match parts {
        Some((month, day, hour, minute)) => month_day_time_text(
            month as nat,
            day as nat,
            hour as nat,
            minute as nat,
        ),
        None => "-"@,
    }
}

/// Fields of a local date and time in the ranges a calendar allows.
pub open spec fn valid_local_parts(month: u32, day: u32, hour: u32, minute: u32) -> bool {
    &&& 1 <= month <= 12
    &&& 1 <= day <= 31
    &&& hour <= 23
    &&& minute <= 59
}

/// Unix times chrono turns into dates: well inside the years it can represent
/// (about 262,000 years either side of year 0).
pub open spec fn within_date_range(epoch_secs: i64) -> bool {
    -8_000_000_000_000 <= epoch_secs <= 8_000_000_000_000
}

/// The month (1..=12) and day (1..=31) of the proleptic Gregorian calendar
/// that lies `days` days after 1970-01-01.
pub open spec fn civil_month_day(days: int) -> (int, int) {
    let z = days + 719468;
    let doe = z % 146097;
    let yoe = (doe - doe / 1460 + doe / 36524 - doe / 146096) / 365;
    let doy = doe - (365 * yoe + yoe / 4 - yoe / 100);
    let mp = (5 * doy + 2) / 153;
    let day = doy - (153 * mp + 2) / 5 + 1;
    let month = if mp < 10 {
        mp + 3
    } else {
        mp - 9
    };
    (month, day)
}

/// Month, day, hour and minute of the UTC time `t` seconds after the Unix
/// epoch.
pub open spec fn utc_fields(t: int) -> (int, int, int, int) {
    let md = civil_month_day(t / 86400);
    let secs = t % 86400;
    (md.0, md.1, secs / 3600, secs % 3600 / 60)
}

/// `month`, `day`, `hour`, `minute` are the fields of the Unix time
/// `epoch_secs` read in some time zone, that is, shifted by an offset of
/// less than a day either way.
pub open spec fn local_fields_of(epoch_secs: int, month: u32, day: u32, hour: u32, minute: u32) -> bool {
    exists|offset: int|
        -86400 < offset < 86400 && #[trigger] utc_fields(epoch_secs + offset) == (
            month as int,
            day as int,
            hour as int,
            minute as int,
        )
}

/// Converts a Unix time into the machine's local time zone with chrono
/// (`Local.timestamp_opt(epoch_secs, 0)`, kept only when it maps to a single
/// local time: `single`) and reads the month, day, hour and minute of the
/// result (`Datelike::month`, `Datelike::day`, `Timelike::hour`,
/// `Timelike::minute`). chrono documents that `timestamp_opt` gives a single
/// local time for every in-range number of seconds, so a result is owed there.
/// Its source reads those fields from the UTC time shifted by the zone's
/// `FixedOffset`, which `FixedOffset::east_opt` keeps strictly within a day
/// either way; within the range that is what the third clause states. Which
/// offset applies is read from the system and is left open. The fields also
/// lie in the ranges chrono documents for each.
#[verifier::external_body]
fn local_month_day_hour_minute(epoch_secs: i64) -> (parts: Option<(u32, u32, u32, u32)>)
    ensures
        parts matches Some((month, day, hour, minute)) ==> valid_local_parts(
            month,
            day,
            hour,
            minute,
        ),
        within_date_range(epoch_secs) ==> parts is Some,
        within_date_range(epoch_secs) ==> (parts matches Some((month, day, hour, minute))
            ==> local_fields_of(epoch_secs as int, month, day, hour, minute)),
{
    Local.timestamp_opt(epoch_secs, 0).single().map(
        |dt| (dt.month(), dt.day(), dt.hour(), dt.minute()),
    )
}

/// The start label of a record from its local month, day, hour and minute.
pub fn format_local_time(parts: Option<(u32, u32, u32, u32)>) -> (s: String)
    ensures
        s@ == local_time_text(parts),
{
    match parts {
        Some((month, day, hour, minute)) => {
            let mut s = String::new();
            push_pad2(&mut s, month as u64);
            s.append("-");
            push_pad2(&mut s, day as u64);
            s.append(" ");
            push_pad2(&mut s, hour as u64);
            s.append(":");
            push_pad2(&mut s, minute as u64);
            assert(s@ =~= local_time_text(parts));
            s
        },
        None => String::from_str("-"),
    }
}

/// When a record's rest started, in the machine's local time, as
/// `MM-DD HH:MM`; `-` when that time has no single local reading, which for a
/// start within chrono's date range never happens. Within that range the
/// label shows the start read with some offset of less than a day.
pub fn format_session_time(s: &RestSession) -> (t: String)
    ensures
        t@ == "-"@ || exists|month: u32, day: u32, hour: u32, minute: u32|
            valid_local_parts(month, day, hour, minute) && t@ == month_day_time_text(
                month as nat,
                day as nat,
                hour as nat,
                minute as nat,
            ),
        within_date_range(s.started_at_epoch) ==> t@ != "-"@ && exists|
            month: u32,
            day: u32,
            hour: u32,
            minute: u32,
        |
            valid_local_parts(month, day, hour, minute) && local_fields_of(
                s.started_at_epoch as int,
                month,
                day,
                hour,
                minute,
            ) && t@ == month_day_time_text(
                month as nat,
                day as nat,
                hour as nat,
                minute as nat,
            ),
{
    let parts = local_month_day_hour_minute(s.started_at_epoch);
    let t = format_local_time(parts);
    proof {
        if let Some((month, day, hour, minute)) = parts {
            assert(valid_local_parts(month, day, hour, minute));
            assert(t@ == month_day_time_text(month as nat, day as nat, hour as nat, minute as nat));
            lemma_pad2_len(month as nat);
            reveal_strlit("-");
            assert(t@.len() > 1);
        }
    }
    t
}

} // verus!
