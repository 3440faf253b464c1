//! Supported ACPI sleep states.

use vstd::prelude::*;
use crate::text::{chars_of, contains, contains_chars};

verus! {

/// Whether a sleep state is supported by the computer.
#[derive(Clone, Copy, Debug, PartialEq, Eq, Structural)]
pub enum SleepMode {
    /// Definitively supported.
    Supported,
    /// Definitively not supported.
    Unsupported,
    /// Not enough information was found.
    Unknown,
}

impl SleepMode {
    /// `Supported` for `true`, `Unsupported` for `false`.
    pub fn from(value: bool) -> (r: SleepMode)
        ensures
            r == mode_of(value),
    {
        if value {
            SleepMode::Supported
        } else {
            SleepMode::Unsupported
        }
    }
}

/// The mode a definite answer gives.
pub open spec fn mode_of(value: bool) -> SleepMode {
    if value {
        SleepMode::Supported
    } else {
        SleepMode::Unsupported
    }
}

/// Information about the computer's supported sleep states.
#[derive(Clone, Copy, Debug, PartialEq, Eq, Structural)]
pub struct Sleep {
    /// Idle standby, emulated by the operating system.
    pub s0: SleepMode,
    /// Traditional standby.
    pub s1: SleepMode,
    /// Standby with the processor's context to restore.
    pub s2: SleepMode,
    /// "Modern standby".
    pub s0ix: SleepMode,
    /// Suspend-to-RAM.
    pub s3: SleepMode,
    /// Suspend-to-disk (hibernation).
    pub s4: SleepMode,
}

impl Sleep {
    /// Every state unknown.
    pub fn default() -> (r: Sleep)
        ensures
            r == all_unknown(),
    {
        Sleep {
            s0: SleepMode::Unknown,
            s1: SleepMode::Unknown,
            s2: SleepMode::Unknown,
            s0ix: SleepMode::Unknown,
            s3: SleepMode::Unknown,
            s4: SleepMode::Unknown,
        }
    }
}

/// Every state unknown.
pub open spec fn all_unknown() -> Sleep {
    Sleep {
        s0: SleepMode::Unknown,
        s1: SleepMode::Unknown,
        s2: SleepMode::Unknown,
        s0ix: SleepMode::Unknown,
        s3: SleepMode::Unknown,
        s4: SleepMode::Unknown,
    }
}

/// What the kernel's list of supported states says: `freeze` or `s2idle`
/// gives S0, `shallow` or `standby` S1, `deep` S3, `disk` S4; S2 is never
/// reported, and S0ix is left as it was.
pub open spec fn parsed_states(old_sleep: Sleep, states: Seq<char>) -> Sleep {
    Sleep {
        s0: mode_of(contains(states, "freeze"@) || contains(states, "s2idle"@)),
        s1: mode_of(contains(states, "shallow"@) || contains(states, "standby"@)),
        s2: SleepMode::Unknown,
        s0ix: old_sleep.s0ix,
        s3: mode_of(contains(states, "deep"@)),
        s4: mode_of(contains(states, "disk"@)),
    }
}

fn has(states: &Vec<char>, word: &str) -> (r: bool)
    ensures
        r == contains(states@, word@),
{
    let w = chars_of(word);
    contains_chars(states, &w)
}

/// Updates `sleep` from the contents of the kernel's list of supported
/// sleep states.
pub fn parse_state_file(sleep: &mut Sleep, states: &str)
    ensures
        *final(sleep) == parsed_states(*old(sleep), states@),
{
    let cs = chars_of(states);
    sleep.s0 = SleepMode::from(has(&cs, "freeze") || has(&cs, "s2idle"));
    sleep.s1 = SleepMode::from(has(&cs, "shallow") || has(&cs, "standby"));
    sleep.s2 = SleepMode::Unknown;
    sleep.s3 = SleepMode::from(has(&cs, "deep"));
    sleep.s4 = SleepMode::from(has(&cs, "disk"));
}

/// The sleep states from the kernel's list, where it could be read; all
/// unknown otherwise.
pub fn linux_sleep_info(states: Option<String>) -> (r: Sleep)
    ensures
        r == match states {
            Some(s) => parsed_states(all_unknown(), s@),
            None => all_unknown(),
        },
{
    let mut sleep = Sleep::default();
    if let Some(s) = &states {
        parse_state_file(&mut sleep, s.as_str());
    }
    sleep
}

/// Information about the system configuration.
#[derive(Clone, Copy, Debug, PartialEq, Eq, Structural)]
pub struct SystemConfInfo {
    pub sleep: Sleep,
}

impl SystemConfInfo {
    /// Wraps the sleep-state information.
    pub fn new(sleep: Sleep) -> (r: SystemConfInfo)
        ensures
            r.sleep == sleep,
    {
        SystemConfInfo { sleep }
    }
}

/// The power capabilities the firmware reports.
#[derive(Clone, Copy, Debug, PartialEq, Eq, Structural)]
pub struct PowerCapabilities {
    pub s1: bool,
    pub s2: bool,
    pub s3: bool,
    pub s4: bool,
    /// Always-on, always-connected (modern standby).
    pub aoac: bool,
}

/// The sleep states that reported power capabilities give; S0 has no
/// equivalent there and stays unknown, as does everything when nothing
/// was reported.
pub fn sleep_from_capabilities(caps: Option<PowerCapabilities>) -> (r: Sleep)
    ensures
        r == match caps {
            Some(c) => Sleep {
                s0: SleepMode::Unknown,
                s1: mode_of(c.s1),
                s2: mode_of(c.s2),
                s0ix: mode_of(c.aoac),
                s3: mode_of(c.s3),
                s4: mode_of(c.s4),
            },
            None => all_unknown(),
        },
{
    let mut sleep = Sleep::default();
    if let Some(c) = caps {
        sleep.s1 = SleepMode::from(c.s1);
        sleep.s2 = SleepMode::from(c.s2);
        sleep.s3 = SleepMode::from(c.s3);
        sleep.s4 = SleepMode::from(c.s4);
        sleep.s0ix = SleepMode::from(c.aoac);
    }
    sleep
}

} // verus!
