//! The bus service's verified half: command-to-event translation and
//! property reads.
//!
//! The service is a stateless translation shim. Each remote command becomes
//! exactly one named event toward the UI layer, with no validation of the
//! extend payload; each read-only property is an on-demand read of the
//! shared register, never cached. The bus registration and the
//! fire-and-forget publish live in the embedding program.

use vstd::prelude::*;

use crate::event::EventOut;
use crate::register::SharedTimerState;
use crate::status::wire_label;

verus! {

/// The bus-resident control service: a handle to the shared register and
/// nothing else. Commands touch no state at all; properties read the
/// register at the moment of the call.
pub struct PomodoroService {
    pub shared_state: SharedTimerState,
}

impl PomodoroService {
    /// A service bound to one register.
    pub fn new(shared_state: SharedTimerState) -> (s: Self)
        ensures
            s.shared_state == shared_state,
    {
        PomodoroService { shared_state }
    }

    /// The `Toggle` command: publish the toggle event, nothing else.
    pub fn toggle(&self) -> (e: EventOut)
        ensures
            e == EventOut::Toggle,
    {
        EventOut::Toggle
    }

    /// The `Start` command: publish the start event, nothing else.
    pub fn start(&self) -> (e: EventOut)
        ensures
            e == EventOut::Start,
    {
        EventOut::Start
    }

    /// The `Stop` command: publish the stop event, nothing else.
    pub fn stop(&self) -> (e: EventOut)
        ensures
            e == EventOut::Stop,
    {
        EventOut::Stop
    }

    /// The `Skip` command: publish the skip event, nothing else.
    pub fn skip(&self) -> (e: EventOut)
        ensures
            e == EventOut::Skip,
    {
        EventOut::Skip
    }

    /// The `Reset` command: publish the reset event, nothing else.
    pub fn reset(&self) -> (e: EventOut)
        ensures
            e == EventOut::Reset,
    {
        EventOut::Reset
    }

    /// The `Extend` command: publish the extend event carrying the caller's
    /// seconds exactly as given — zero included, no clamping, no validation
    /// beyond the wire-level numeric range.
    pub fn extend(&self, seconds: u32) -> (e: EventOut)
        ensures
            e == EventOut::Extend(seconds),
    {
        EventOut::Extend(seconds)
    }

    /// The `State` property: the wire label of the mode in the register's
    /// current snapshot.
    pub fn state(&self) -> (r: String)
        ensures
            r@ == wire_label(self.shared_state.current().mode),
    {
        let snapshot = self.shared_state.read();
        snapshot.mode.wire_name().to_owned()
    }

    /// The `TimeLeft` property: the seconds remaining in the register's
    /// current snapshot.
    pub fn time_left(&self) -> (r: u32)
        ensures
            r == self.shared_state.current().time_left,
    {
        self.shared_state.read().time_left
    }

    /// The `IsActive` property: the active flag of the register's current
    /// snapshot.
    pub fn is_active(&self) -> (r: bool)
        ensures
            r == self.shared_state.current().is_active,
    {
        self.shared_state.read().is_active
    }

    /// The `SessionsCompleted` property: the completed-session count of the
    /// register's current snapshot.
    pub fn sessions_completed(&self) -> (r: u32)
        ensures
            r == self.shared_state.current().sessions_completed,
    {
        self.shared_state.read().sessions_completed
    }
}

} // verus!
