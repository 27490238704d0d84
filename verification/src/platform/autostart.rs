//! Start at login, through the `Run` key of the user's registry hive: the
//! steps that bring the key in line with the setting, and the command it
//! holds.

use vstd::prelude::*;
use vstd::string::*;

verus! {

/// The registry key whose values Windows runs at login.
pub const RUN_KEY: &'static str = r"HKCU\Software\Microsoft\Windows\CurrentVersion\Run";

/// The name of this application's value under [`RUN_KEY`].
pub const RUN_VALUE_NAME: &'static str = "RhythmWin";

/// The next registry operation when bringing the `Run` value in line with
/// the setting.
#[derive(Debug, Clone, Copy, PartialEq, Eq, Structural)]
pub enum RegistryStep {
    /// Write (or overwrite) the value.
    Add,
    /// Ask whether the value is there.
    Query,
    /// Remove the value.
    Delete,
    /// Nothing left to do.
    Done,
}

/// The step after which the `Run` value matches the setting `enabled`, given
/// what a query said of it so far (`None`: not asked yet). Enabling always
/// writes the value; disabling first asks whether the value is there, and
/// removes it only if it is.
pub open spec fn registry_step(enabled: bool, registered: Option<bool>) -> RegistryStep {
    if enabled {
        RegistryStep::Add
    } else {
        match registered {
            None => RegistryStep::Query,
            Some(false) => RegistryStep::Done,
            Some(true) => RegistryStep::Delete,
        }
    }
}

/// The command stored in the `Run` value: the quoted program path, then the
/// `run` subcommand, so that a login opens the panel.
pub open spec fn run_command_text(exe: Seq<char>) -> Seq<char> {
    "\""@ + exe + "\" run"@
}

/// Keeps the login entry in line with the setting.
pub struct AutoStartManager;

impl AutoStartManager {
    pub fn new() -> (m: Self) {
        AutoStartManager
    }

    /// The next registry operation towards the setting `enabled`.
    pub fn next_step(&self, enabled: bool, registered: Option<bool>) -> (s: RegistryStep)
        ensures
            s == registry_step(enabled, registered),
    {
        if enabled {
            RegistryStep::Add
        } else {
            match registered {
                None => RegistryStep::Query,
                Some(false) => RegistryStep::Done,
                Some(true) => RegistryStep::Delete,
            }
        }
    }

    /// The command to store for the program at path `exe`.
    pub fn run_command(&self, exe: &str) -> (c: String)
        ensures
            c@ == run_command_text(exe@),
    {
        let mut c = String::from_str("\"");
        c.append(exe);
        c.append("\" run");
        c
    }
}

} // verus!
