//! The named events the control plane publishes toward the UI layer.

use vstd::prelude::*;

verus! {

/// One outbound event. Every command the bus service receives and every idle
/// edge the watcher detects becomes exactly one of these; the embedding
/// program publishes them fire-and-forget on its event channel.
#[derive(Clone, Copy, Debug, PartialEq, Eq, Structural)]
pub enum EventOut {
    Toggle,
    Start,
    Stop,
    Skip,
    Reset,
    Extend(u32),
    IdlePause,
    IdleResume,
}

/// Wire name of an event: the subscription name the UI layer listens on.
pub open spec fn event_name_spec(e: EventOut) -> Seq<char> {
    match e {
        EventOut::Toggle => "toggle"@,
        EventOut::Start => "start"@,
        EventOut::Stop => "stop"@,
        EventOut::Skip => "skip"@,
        EventOut::Reset => "reset"@,
        EventOut::Extend(_) => "extend"@,
        EventOut::IdlePause => "idle-pause"@,
        EventOut::IdleResume => "idle-resume"@,
    }
}

/// Numeric payload of an event: only the extend event carries one, and it
/// carries the caller's seconds exactly as given, zero included.
pub open spec fn event_payload_spec(e: EventOut) -> Option<u32> {
    match e {
        EventOut::Extend(seconds) => Some(seconds),
        _ => None,
    }
}

impl EventOut {
    /// Returns the event's wire name.
    pub fn name(&self) -> (r: &'static str)
        ensures
            r@ == event_name_spec(*self),
    {
        match self {
            EventOut::Toggle => "toggle",
            EventOut::Start => "start",
            EventOut::Stop => "stop",
            EventOut::Skip => "skip",
            EventOut::Reset => "reset",
            EventOut::Extend(_) => "extend",
            EventOut::IdlePause => "idle-pause",
            EventOut::IdleResume => "idle-resume",
        }
    }

    /// Returns the event's numeric payload, if it carries one.
    pub fn payload(&self) -> (r: Option<u32>)
        ensures
            r == event_payload_spec(*self),
    {
        match self {
            EventOut::Extend(seconds) => Some(*seconds),
            _ => None,
        }
    }
}

} // verus!
