//! User settings: the focus and rest lengths and the two switches.
//!
//! Stored settings are brought into range before use, and settings written by
//! older versions (which kept the rest length in minutes) are migrated.

use vstd::prelude::*;

verus! {

/// Shortest focus period a user can choose, in minutes.
pub const FOCUS_MINUTES_MIN: u64 = 10;
/// Longest focus period a user can choose, in minutes.
pub const FOCUS_MINUTES_MAX: u64 = 120;
/// Shortest rest a user can choose, in seconds.
pub const REST_SECONDS_MIN: u64 = 30;
/// Longest rest a user can choose, in seconds.
pub const REST_SECONDS_MAX: u64 = 600;
/// One press of the focus buttons, in minutes.
pub const FOCUS_MINUTES_STEP: u64 = 5;
/// One press of the rest buttons, in seconds.
pub const REST_SECONDS_STEP: u64 = 30;

/// The user's settings.
#[derive(Debug, Clone, Copy, PartialEq, Eq, Structural)]
pub struct AppConfig {
    pub focus_minutes: u64,
    pub rest_seconds: u64,
    pub skip_rest_enabled: bool,
    pub launch_at_login: bool,
}

/// Settings as older versions stored them: every field may be missing, and
/// the rest length may be given in minutes instead of seconds.
#[derive(Debug, Clone, Copy, PartialEq, Eq, Structural)]
pub struct LegacyConfig {
    pub focus_minutes: Option<u64>,
    pub rest_seconds: Option<u64>,
    pub rest_minutes: Option<u64>,
    pub skip_rest_enabled: Option<bool>,
    pub launch_at_login: Option<bool>,
}

/// `v` brought into `lo..=hi`.
pub open spec fn clamp(v: u64, lo: u64, hi: u64) -> u64 {
    if v < lo {
        lo
    } else if v > hi {
        hi
    } else {
        v
    }
}

/// The settings a first run starts with: 25 minutes of focus, 5 minutes of
/// rest, both switches off.
pub open spec fn default_config() -> AppConfig {
    AppConfig {
        focus_minutes: 25,
        rest_seconds: 300,
        skip_rest_enabled: false,
        launch_at_login: false,
    }
}

/// Both lengths lie in the ranges a user can choose.
pub open spec fn in_range(c: AppConfig) -> bool {
    &&& FOCUS_MINUTES_MIN <= c.focus_minutes <= FOCUS_MINUTES_MAX
    &&& REST_SECONDS_MIN <= c.rest_seconds <= REST_SECONDS_MAX
}

/// The settings with both lengths clamped into range.
pub open spec fn normalized(c: AppConfig) -> AppConfig {
    AppConfig {
        focus_minutes: clamp(c.focus_minutes, FOCUS_MINUTES_MIN, FOCUS_MINUTES_MAX),
        rest_seconds: clamp(c.rest_seconds, REST_SECONDS_MIN, REST_SECONDS_MAX),
        ..c
    }
}

/// `m` minutes in seconds, saturating at the largest `u64`.
pub open spec fn minutes_to_seconds(m: u64) -> u64 {
    if m * 60 > u64::MAX {
        u64::MAX
    } else {
        (m * 60) as u64
    }
}

/// The current settings that a legacy record stands for: each field that is
/// present is taken; a rest length in seconds wins over one in minutes; the
/// rest comes from the defaults.
pub open spec fn migrated(old: LegacyConfig) -> AppConfig {
    let d = default_config();
    AppConfig {
        focus_minutes: match old.focus_minutes {
            Some(v) => v,
            None => d.focus_minutes,
        },
        rest_seconds: match old.rest_seconds {
            Some(v) => v,
            None => match old.rest_minutes {
                Some(m) => minutes_to_seconds(m),
                None => d.rest_seconds,
            },
        },
        skip_rest_enabled: match old.skip_rest_enabled {
            Some(v) => v,
            None => d.skip_rest_enabled,
        },
        launch_at_login: match old.launch_at_login {
            Some(v) => v,
            None => d.launch_at_login,
        },
    }
}

/// The settings a stored record yields: a record in the current form if it
/// could be read so, else one in the legacy form, and in either case brought
/// into range; `None` when neither form could be read.
pub open spec fn loaded(current: Option<AppConfig>, legacy: Option<LegacyConfig>) -> Option<AppConfig> {
    match current {
        Some(c) => Some(normalized(c)),
        None => match legacy {
            Some(l) => Some(normalized(migrated(l))),
            None => None,
        },
    }
}

/// The settings after `config set`: each given value replaces the stored one,
/// then both lengths are brought into range.
pub open spec fn with_overrides(
    c: AppConfig,
    focus_minutes: Option<u64>,
    rest_seconds: Option<u64>,
    skip_rest_enabled: Option<bool>,
    launch_at_login: Option<bool>,
) -> AppConfig {
    normalized(
        AppConfig {
            focus_minutes: match focus_minutes {
                Some(v) => v,
                None => c.focus_minutes,
            },
            rest_seconds: match rest_seconds {
                Some(v) => v,
                None => c.rest_seconds,
            },
            skip_rest_enabled: match skip_rest_enabled {
                Some(v) => v,
                None => c.skip_rest_enabled,
            },
            launch_at_login: match launch_at_login {
                Some(v) => v,
                None => c.launch_at_login,
            },
        },
    )
}

fn clamp_u64(v: u64, lo: u64, hi: u64) -> (r: u64)
    requires
        lo <= hi,
    ensures
        r == clamp(v, lo, hi),
{
    if v < lo {
        lo
    } else if v > hi {
        hi
    } else {
        v
    }
}

impl Default for AppConfig {
    fn default() -> (c: Self)
        ensures
            c == default_config(),
    {
        AppConfig {
            focus_minutes: 25,
            rest_seconds: 300,
            skip_rest_enabled: false,
            launch_at_login: false,
        }
    }
}

impl AppConfig {
    /// Clamps the focus length into 10..=120 minutes and the rest length into
    /// 30..=600 seconds, so that a hand-edited file cannot break the timer.
    pub fn normalize(&mut self)
        ensures
            *final(self) == normalized(*old(self)),
            old(self).focus_minutes < FOCUS_MINUTES_MIN ==> final(self).focus_minutes
                == FOCUS_MINUTES_MIN,
            old(self).focus_minutes > FOCUS_MINUTES_MAX ==> final(self).focus_minutes
                == FOCUS_MINUTES_MAX,
            FOCUS_MINUTES_MIN <= old(self).focus_minutes <= FOCUS_MINUTES_MAX ==> final(self).focus_minutes == old(self).focus_minutes,
            old(self).rest_seconds < REST_SECONDS_MIN ==> final(self).rest_seconds
                == REST_SECONDS_MIN,
            old(self).rest_seconds > REST_SECONDS_MAX ==> final(self).rest_seconds
                == REST_SECONDS_MAX,
            REST_SECONDS_MIN <= old(self).rest_seconds <= REST_SECONDS_MAX ==> final(self).rest_seconds == old(self).rest_seconds,
            final(self).skip_rest_enabled == old(self).skip_rest_enabled,
            final(self).launch_at_login == old(self).launch_at_login,
    {
        self.focus_minutes = clamp_u64(self.focus_minutes, FOCUS_MINUTES_MIN, FOCUS_MINUTES_MAX);
        self.rest_seconds = clamp_u64(self.rest_seconds, REST_SECONDS_MIN, REST_SECONDS_MAX);
    }

    /// The current settings that a record in the legacy form stands for.
    pub fn from_legacy(old: LegacyConfig) -> (c: Self)
        ensures
            c == migrated(old),
    {
        let mut cfg = AppConfig::default();
        if let Some(v) = old.focus_minutes {
            cfg.focus_minutes = v;
        }
        if let Some(v) = old.rest_seconds {
            cfg.rest_seconds = v;
        } else if let Some(v) = old.rest_minutes {
            cfg.rest_seconds = if v <= u64::MAX / 60 {
                v * 60
            } else {
                u64::MAX
            };
        }
        if let Some(v) = old.skip_rest_enabled {
            cfg.skip_rest_enabled = v;
        }
        if let Some(v) = old.launch_at_login {
            cfg.launch_at_login = v;
        }
        cfg
    }

    /// The settings a stored record yields, given what could be read from it:
    /// `current` in the current form, `legacy` in the legacy form. `None` when
    /// the record could be read in neither form.
    pub fn from_stored(current: Option<AppConfig>, legacy: Option<LegacyConfig>) -> (c: Option<
        Self,
    >)
        ensures
            c == loaded(current, legacy),
    {
        let mut cfg = match current {
            Some(c) => c,
            None => match legacy {
                Some(l) => AppConfig::from_legacy(l),
                None => return None,
            },
        };
        cfg.normalize();
        Some(cfg)
    }

    /// Replaces each setting that is given, then brings the lengths into range.
    pub fn apply_overrides(
        &mut self,
        focus_minutes: Option<u64>,
        rest_seconds: Option<u64>,
        skip_rest_enabled: Option<bool>,
        launch_at_login: Option<bool>,
    )
        ensures
            *final(self) == with_overrides(
                *old(self),
                focus_minutes,
                rest_seconds,
                skip_rest_enabled,
                launch_at_login,
            ),
            ({
                let f = match focus_minutes {
                    Some(v) => v,
                    None => old(self).focus_minutes,
                };
                &&& f < FOCUS_MINUTES_MIN ==> final(self).focus_minutes == FOCUS_MINUTES_MIN
                &&& f > FOCUS_MINUTES_MAX ==> final(self).focus_minutes == FOCUS_MINUTES_MAX
                &&& FOCUS_MINUTES_MIN <= f <= FOCUS_MINUTES_MAX ==> final(self).focus_minutes == f
            }),
            ({
                let r = match rest_seconds {
                    Some(v) => v,
                    None => old(self).rest_seconds,
                };
                &&& r < REST_SECONDS_MIN ==> final(self).rest_seconds == REST_SECONDS_MIN
                &&& r > REST_SECONDS_MAX ==> final(self).rest_seconds == REST_SECONDS_MAX
                &&& REST_SECONDS_MIN <= r <= REST_SECONDS_MAX ==> final(self).rest_seconds == r
            }),
            skip_rest_enabled is None ==> final(self).skip_rest_enabled == old(self).skip_rest_enabled,
            skip_rest_enabled matches Some(v) ==> final(self).skip_rest_enabled == v,
            launch_at_login is None ==> final(self).launch_at_login == old(self).launch_at_login,
            launch_at_login matches Some(v) ==> final(self).launch_at_login == v,
    {
        if let Some(v) = focus_minutes {
            self.focus_minutes = v;
        }
        if let Some(v) = rest_seconds {
            self.rest_seconds = v;
        }
        if let Some(v) = skip_rest_enabled {
            self.skip_rest_enabled = v;
        }
        if let Some(v) = launch_at_login {
            self.launch_at_login = v;
        }
        self.normalize();
    }
}

/// The value one press of a "+" button gives: `value + step`, unless that
/// would pass `max`, in which case the button does nothing.
pub fn step_up(value: u64, step: u64, max: u64) -> (r: Option<u64>)
    ensures
        r == (if value + step <= max {
            Some((value + step) as u64)
        } else {
            None::<u64>
        }),
{
    if step <= max && value <= max - step {
        Some(value + step)
    } else {
        None
    }
}

/// The value one press of a "-" button gives: `value - step`, unless that
/// would go below `min`, in which case the button does nothing.
pub fn step_down(value: u64, min: u64, step: u64) -> (r: Option<u64>)
    ensures
        r == (if value >= min + step {
            Some((value - step) as u64)
        } else {
            None::<u64>
        }),
{
    if value >= step && value - step >= min {
        Some(value - step)
    } else {
        None
    }
}

/// Bringing settings into range is idempotent, always lands in range, and
/// leaves settings that are already in range unchanged.
pub proof fn lemma_normalize_idempotent(c: AppConfig)
    ensures
        normalized(normalized(c)) == normalized(c),
        in_range(normalized(c)),
        in_range(c) ==> normalized(c) == c,
{
}

/// Whatever a stored record holds, the settings loaded from it are in range.
pub proof fn lemma_loaded_in_range(current: Option<AppConfig>, legacy: Option<LegacyConfig>)
    ensures
        loaded(current, legacy) matches Some(c) ==> in_range(c),
{
}

/// The defaults are in range, and a legacy record with nothing in it migrates
/// to the defaults.
pub proof fn lemma_default_in_range()
    ensures
        in_range(default_config()),
        migrated(
            LegacyConfig {
                focus_minutes: None,
                rest_seconds: None,
                rest_minutes: None,
                skip_rest_enabled: None,
                launch_at_login: None,
            },
        ) == default_config(),
{
}

/// Bringing settings into range moves a length that is too short up to the
/// minimum and one that is too long down to the maximum, keeps a length that
/// is in range, and leaves both switches alone.
pub proof fn lemma_normalized_clamps(c: AppConfig)
    ensures
        c.focus_minutes < FOCUS_MINUTES_MIN ==> normalized(c).focus_minutes == FOCUS_MINUTES_MIN,
        c.focus_minutes > FOCUS_MINUTES_MAX ==> normalized(c).focus_minutes == FOCUS_MINUTES_MAX,
        FOCUS_MINUTES_MIN <= c.focus_minutes <= FOCUS_MINUTES_MAX ==> normalized(c).focus_minutes
            == c.focus_minutes,
        c.rest_seconds < REST_SECONDS_MIN ==> normalized(c).rest_seconds == REST_SECONDS_MIN,
        c.rest_seconds > REST_SECONDS_MAX ==> normalized(c).rest_seconds == REST_SECONDS_MAX,
        REST_SECONDS_MIN <= c.rest_seconds <= REST_SECONDS_MAX ==> normalized(c).rest_seconds
            == c.rest_seconds,
        normalized(c).skip_rest_enabled == c.skip_rest_enabled,
        normalized(c).launch_at_login == c.launch_at_login,
{
}

/// Normalizing never moves a length the wrong way: a longer stored length
/// never gives a shorter normalized one.
pub proof fn lemma_normalized_monotone(a: AppConfig, b: AppConfig)
    ensures
        a.focus_minutes <= b.focus_minutes ==> normalized(a).focus_minutes <= normalized(
            b,
        ).focus_minutes,
        a.rest_seconds <= b.rest_seconds ==> normalized(a).rest_seconds <= normalized(
            b,
        ).rest_seconds,
{
}

/// `config set` changes only what it is given: a setting that is not given
/// keeps its stored value (a length up to being brought into range), and a
/// given switch takes the given value.
pub proof fn lemma_overrides_keep_what_is_not_given(
    c: AppConfig,
    focus_minutes: Option<u64>,
    rest_seconds: Option<u64>,
    skip_rest_enabled: Option<bool>,
    launch_at_login: Option<bool>,
)
    ensures
        ({
            let n = with_overrides(c, focus_minutes, rest_seconds, skip_rest_enabled, launch_at_login);
            &&& skip_rest_enabled is None ==> n.skip_rest_enabled == c.skip_rest_enabled
            &&& skip_rest_enabled matches Some(v) ==> n.skip_rest_enabled == v
            &&& launch_at_login is None ==> n.launch_at_login == c.launch_at_login
            &&& launch_at_login matches Some(v) ==> n.launch_at_login == v
            &&& (focus_minutes is None && in_range(c)) ==> n.focus_minutes == c.focus_minutes
            &&& (rest_seconds is None && in_range(c)) ==> n.rest_seconds == c.rest_seconds
            &&& focus_minutes matches Some(v) ==> (FOCUS_MINUTES_MIN <= v <= FOCUS_MINUTES_MAX
                ==> n.focus_minutes == v)
            &&& rest_seconds matches Some(v) ==> (REST_SECONDS_MIN <= v <= REST_SECONDS_MAX
                ==> n.rest_seconds == v)
        }),
{
}

} // verus!
