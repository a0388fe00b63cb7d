//! Edge-triggered idle detection.
//!
//! The watcher polls the desktop environment's idle-time oracle on a fixed
//! interval and classifies each successful reading against a fixed threshold.
//! It publishes a pause event only on the not-idle to idle transition and a
//! resume event only on the reverse one; an unchanged classification, a
//! failed query, or a disabled detector never produces an event. The polling
//! loop and the oracle query live in the embedding program, which hands each
//! outcome to [`IdleDetector::tick`].

use vstd::prelude::*;

use crate::event::EventOut;

verus! {

/// Seconds of user inactivity at or above which a reading classifies as idle.
pub const IDLE_THRESHOLD_SECS: u32 = 300;

/// Seconds the polling loop sleeps between oracle queries.
pub const POLL_INTERVAL_SECS: u64 = 10;

/// The idle watcher's whole state: the externally controlled enable flag and
/// the edge tracker that remembers whether the last classification was idle.
#[derive(Clone, Copy, Debug, PartialEq, Eq, Structural)]
pub struct IdleDetector {
    pub enabled: bool,
    pub was_idle: bool,
}

/// Classification of one oracle reading, in milliseconds of user inactivity:
/// idle exactly when the whole seconds reach the fixed threshold. Sub-second
/// precision is discarded by the division.
pub open spec fn classifies_idle(idle_ms: u32) -> bool {
    idle_ms / 1000 >= IDLE_THRESHOLD_SECS
}

/// The event an enabled tick emits: a pause on the not-idle to idle edge, a
/// resume on the idle to not-idle edge, nothing when the classification is
/// unchanged.
pub open spec fn edge_event(was_idle: bool, is_idle: bool) -> Option<EventOut> {
    if is_idle && !was_idle {
        Some(EventOut::IdlePause)
    } else if !is_idle && was_idle {
        Some(EventOut::IdleResume)
    } else {
        None
    }
}

/// Detector state after a tick. A disabled tick resets the edge tracker so
/// re-enabling starts clean; a failed query (no reading) changes nothing;
/// a successful reading becomes the new edge.
pub open spec fn after_tick(d: IdleDetector, reading: Option<u32>) -> IdleDetector {
    if !d.enabled {
        IdleDetector { enabled: d.enabled, was_idle: false }
    } else {
        match reading {
            None => d,
            Some(idle_ms) => IdleDetector { enabled: d.enabled, was_idle: classifies_idle(idle_ms) },
        }
    }
}

/// The event a tick emits: only an enabled tick with a successful reading
/// can emit, and then exactly on a classification edge.
pub open spec fn tick_event(d: IdleDetector, reading: Option<u32>) -> Option<EventOut> {
    if !d.enabled {
        None
    } else {
        match reading {
            None => None,
            Some(idle_ms) => edge_event(d.was_idle, classifies_idle(idle_ms)),
        }
    }
}

/// Detector state after an enable/disable request: the flag is set, and a
/// change of the flag clears the edge tracker, so detection re-enabled after
/// a disabled stretch starts from a clean not-idle edge.
pub open spec fn after_set_enabled(d: IdleDetector, enabled: bool) -> IdleDetector {
    IdleDetector { enabled, was_idle: d.was_idle && enabled == d.enabled }
}

impl IdleDetector {
    /// A fresh detector: disabled, with no prior edge.
    pub fn new() -> (d: Self)
        ensures
            d == (IdleDetector { enabled: false, was_idle: false }),
    {
        IdleDetector { enabled: false, was_idle: false }
    }

    /// Enables or disables detection.
    pub fn set_enabled(&mut self, enabled: bool)
        ensures
            *final(self) == after_set_enabled(*old(self), enabled),
    {
        if enabled != self.enabled {
            self.was_idle = false;
        }
        self.enabled = enabled;
    }

    /// One polling cycle. `reading` is the oracle's answer for this tick:
    /// milliseconds of user inactivity on a successful query, nothing on a
    /// failed one (the embedding loop also passes nothing while detection is
    /// disabled, since it skips the query; a disabled tick ignores the
    /// reading either way). Returns the event to publish, if any.
    pub fn tick(&mut self, reading: Option<u32>) -> (event: Option<EventOut>)
        ensures
            *final(self) == after_tick(*old(self), reading),
            event == tick_event(*old(self), reading),
    {
        if !self.enabled {
            self.was_idle = false;
            return None;
        }
        match reading {
            None => None,
            Some(idle_ms) => {
                let idle_secs = idle_ms / 1000;
                let is_idle = idle_secs >= IDLE_THRESHOLD_SECS;
                let event = if is_idle && !self.was_idle {
                    Some(EventOut::IdlePause)
                } else if !is_idle && self.was_idle {
                    Some(EventOut::IdleResume)
                } else {
                    None
                };
                self.was_idle = is_idle;
                event
            },
        }
    }
}

/// Idle classification is a pure function of the one oracle reading and the
/// fixed threshold, and a tick emits exactly on a classification change:
/// never while disabled, never on a failed query, never when the
/// classification is unchanged, a pause exactly on the not-idle to idle edge
/// and a resume exactly on the reverse edge.
pub proof fn lemma_tick_edge_discipline(d: IdleDetector, idle_ms: u32)
    ensures
        classifies_idle(idle_ms) <==> idle_ms / 1000 >= IDLE_THRESHOLD_SECS,
        !d.enabled ==> tick_event(d, Some(idle_ms)) is None,
        tick_event(d, None) is None,
        d.enabled ==> (tick_event(d, Some(idle_ms)) is Some
            <==> classifies_idle(idle_ms) != d.was_idle),
        d.enabled ==> (tick_event(d, Some(idle_ms)) == Some(EventOut::IdlePause)
            <==> !d.was_idle && classifies_idle(idle_ms)),
        d.enabled ==> (tick_event(d, Some(idle_ms)) == Some(EventOut::IdleResume)
            <==> d.was_idle && !classifies_idle(idle_ms)),
        !d.enabled ==> after_tick(d, Some(idle_ms)).was_idle == false,
{
}

/// Disabling then re-enabling detection clears the prior edge: the first
/// idle classification after re-enabling always publishes the pause event,
/// even if the reported idle time never dropped below the threshold while
/// detection was disabled.
pub proof fn lemma_reenable_clears_edge(d: IdleDetector, idle_ms: u32)
    requires
        classifies_idle(idle_ms),
    ensures
        tick_event(after_set_enabled(after_set_enabled(d, false), true), Some(idle_ms))
            == Some(EventOut::IdlePause),
{
}

/// A failed oracle query carries no new information: a tick without a
/// reading never emits, and an enabled tick without a reading leaves the
/// detector exactly as it was.
pub proof fn lemma_failed_query_silent(d: IdleDetector)
    ensures
        tick_event(d, None) is None,
        d.enabled ==> after_tick(d, None) == d,
{
}

/// Detector state after a whole run of ticks, oldest reading first.
pub open spec fn run_state(d: IdleDetector, readings: Seq<Option<u32>>) -> IdleDetector
    decreases readings.len(),
{
    if readings.len() == 0 {
        d
    } else {
        run_state(after_tick(d, readings.first()), readings.drop_first())
    }
}

/// Every event a whole run of ticks emits, in order.
pub open spec fn run_events(d: IdleDetector, readings: Seq<Option<u32>>) -> Seq<EventOut>
    decreases readings.len(),
{
    if readings.len() == 0 {
        Seq::empty()
    } else {
        let rest = run_events(after_tick(d, readings.first()), readings.drop_first());
        match tick_event(d, readings.first()) {
            Some(e) => seq![e] + rest,
            None => rest,
        }
    }
}

/// How often the classification changes along a run of successful readings,
/// starting from a given prior edge.
pub open spec fn classification_change_count(was_idle: bool, readings: Seq<Option<u32>>) -> nat
    decreases readings.len(),
{
    if readings.len() == 0 {
        0
    } else {
        let now = match readings.first() {
            Some(idle_ms) => classifies_idle(idle_ms),
            None => was_idle,
        };
        (if now != was_idle {
            1nat
        } else {
            0nat
        }) + classification_change_count(now, readings.drop_first())
    }
}

/// Over a whole run of failed queries, the watcher stays silent, and an
/// enabled detector comes out exactly as it went in: no run of failures can
/// move the edge or produce an event.
pub proof fn lemma_failed_run_silent(d: IdleDetector, readings: Seq<Option<u32>>)
    requires
        forall|i: int| 0 <= i < readings.len() ==> readings[i] is None,
    ensures
        run_events(d, readings) =~= Seq::<EventOut>::empty(),
        d.enabled ==> run_state(d, readings) == d,
    decreases readings.len(),
{
    if readings.len() > 0 {
        lemma_failed_run_silent(after_tick(d, readings.first()), readings.drop_first());
    }
}

/// Transition-only emission over whole runs: across any run of enabled
/// ticks with successful readings, the watcher emits exactly one event per
/// classification change — never more, never fewer.
pub proof fn lemma_run_emits_once_per_change(d: IdleDetector, readings: Seq<Option<u32>>)
    requires
        d.enabled,
        forall|i: int| 0 <= i < readings.len() ==> readings[i] is Some,
    ensures
        run_events(d, readings).len() == classification_change_count(d.was_idle, readings),
    decreases readings.len(),
{
    if readings.len() > 0 {
        let next = after_tick(d, readings.first());
        assert(forall|i: int|
            0 <= i < readings.drop_first().len() ==> readings.drop_first()[i] is Some);
        lemma_run_emits_once_per_change(next, readings.drop_first());
    }
}

} // verus!
