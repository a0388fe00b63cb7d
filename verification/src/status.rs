//! The timer snapshot value type and its wire-format mode labels.

use vstd::prelude::*;

verus! {

/// The three timer modes the UI layer can report, as carried by the bus
/// `State` property.
#[derive(Clone, Copy, Debug, PartialEq, Eq, Structural)]
pub enum TimerMode {
    Work,
    ShortBreak,
    LongBreak,
}

/// Wire label of a mode: the string form the bus `State` property carries.
pub open spec fn wire_label(m: TimerMode) -> Seq<char> {
    match m {
        TimerMode::Work => "work"@,
        TimerMode::ShortBreak => "shortBreak"@,
        TimerMode::LongBreak => "longBreak"@,
    }
}

impl TimerMode {
    /// Returns this mode's wire label: "work", "shortBreak" or "longBreak".
    pub fn wire_name(&self) -> (r: &'static str)
        ensures
            r@ == wire_label(*self),
    {
        match self {
            TimerMode::Work => "work",
            TimerMode::ShortBreak => "shortBreak",
            TimerMode::LongBreak => "longBreak",
        }
    }
}

/// Parses a wire label back into a mode: the exact inverse of
/// [`TimerMode::wire_name`] on the three labels, and nothing on any other
/// string.
pub fn mode_from_wire(s: &str) -> (r: Option<TimerMode>)
    ensures
        r is Some <==> (s@ == "work"@ || s@ == "shortBreak"@ || s@ == "longBreak"@),
        r matches Some(m) ==> wire_label(m) == s@,
{
    if crate::strutil::str_eq(s, "work") {
        Some(TimerMode::Work)
    } else if crate::strutil::str_eq(s, "shortBreak") {
        Some(TimerMode::ShortBreak)
    } else if crate::strutil::str_eq(s, "longBreak") {
        Some(TimerMode::LongBreak)
    } else {
        None
    }
}

/// One whole snapshot of the timer's externally visible state. The register
/// only ever replaces it wholesale; no field is mutated on its own.
#[derive(Clone, Copy, Debug, PartialEq, Eq, Structural)]
pub struct TimerStatus {
    pub mode: TimerMode,
    pub time_left: u32,
    pub is_active: bool,
    pub sessions_completed: u32,
}

impl TimerStatus {
    /// The built-in snapshot a fresh register holds before the UI layer has
    /// pushed anything: work mode, 25 minutes left, inactive, no sessions.
    pub open spec fn default_spec() -> TimerStatus {
        TimerStatus {
            mode: TimerMode::Work,
            time_left: (25 * 60) as u32,
            is_active: false,
            sessions_completed: 0,
        }
    }
}

impl Default for TimerStatus {
    fn default() -> (r: Self)
        ensures
            r == TimerStatus::default_spec(),
    {
        TimerStatus {
            mode: TimerMode::Work,
            time_left: 25 * 60,
            is_active: false,
            sessions_completed: 0,
        }
    }
}

} // verus!
