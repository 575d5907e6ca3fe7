use vstd::prelude::*;

use crate::instance::ServiceInstance;

verus! {

/// Seconds between heartbeats when the configuration says nothing.
pub const DEFAULT_HEARTBEAT_SECS: u64 = 20;

/// Milliseconds the loop waits after signalling its heartbeat task to stop, before unregistering.
pub const SHUTDOWN_GRACE_MILLIS: u64 = 100;

/// Where a registered instance is in its life.
#[derive(Debug, Clone, Copy, PartialEq, Eq, Structural)]
pub enum RegistryState {
    Initial,
    Registering,
    Heartbeating,
    Deregistering,
    Stopped,
}

/// What happened, as reported to the registry loop by its driver.
#[derive(Debug, Clone, Copy, PartialEq, Eq, Structural)]
pub enum RegistryEvent {
    /// The owner asked for the instance to be registered.
    Start,
    /// The backend accepted the registration.
    Registered,
    /// The backend refused the registration.
    RegisterFailed,
    /// A heartbeat interval elapsed.
    Tick,
    /// A heartbeat went through.
    HeartbeatSucceeded,
    /// A heartbeat failed; the loop goes on.
    HeartbeatFailed,
    /// The owner asked for a shutdown, explicitly or by dropping the handle.
    Shutdown,
    /// The unregistration finished, well or not.
    Unregistered,
}

/// What the driver must do next.
#[derive(Debug, Clone, Copy, PartialEq, Eq, Structural)]
pub enum RegistryAction {
    Nothing,
    /// Call the backend's `register` with the instance.
    Register,
    /// Call the backend's `heartbeat` with the instance.
    Heartbeat,
    /// Surface the registration error to the owner; no loop starts.
    ReportFailure,
    /// Stop the heartbeat task, wait the grace period, then call `unregister` with the id.
    Unregister,
}

/// The transition of the registry loop: next state and action for a state and an event.
pub open spec fn registry_step(s: RegistryState, e: RegistryEvent) -> (RegistryState, RegistryAction) {
    match (s, e) {
        (RegistryState::Initial, RegistryEvent::Start) => (
            RegistryState::Registering,
            RegistryAction::Register,
        ),
        (RegistryState::Registering, RegistryEvent::Registered) => (
            RegistryState::Heartbeating,
            RegistryAction::Heartbeat,
        ),
        (RegistryState::Registering, RegistryEvent::RegisterFailed) => (
            RegistryState::Stopped,
            RegistryAction::ReportFailure,
        ),
        (RegistryState::Heartbeating, RegistryEvent::Tick) => (
            RegistryState::Heartbeating,
            RegistryAction::Heartbeat,
        ),
        (RegistryState::Heartbeating, RegistryEvent::Shutdown) => (
            RegistryState::Deregistering,
            RegistryAction::Unregister,
        ),
        (RegistryState::Registering, RegistryEvent::Shutdown) => (
            RegistryState::Deregistering,
            RegistryAction::Unregister,
        ),
        (RegistryState::Initial, RegistryEvent::Shutdown) => (
            RegistryState::Stopped,
            RegistryAction::Nothing,
        ),
        (RegistryState::Deregistering, RegistryEvent::Unregistered) => (
            RegistryState::Stopped,
            RegistryAction::Nothing,
        ),
        _ => (s, RegistryAction::Nothing),
    }
}

/// The state after a run of events.
pub open spec fn registry_run(s: RegistryState, events: Seq<RegistryEvent>) -> RegistryState
    decreases events.len(),
{
    if events.len() == 0 {
        s
    } else {
        registry_step(registry_run(s, events.drop_last()), events.last()).0
    }
}

/// The transition, in executable code.
pub fn step(s: RegistryState, e: RegistryEvent) -> (r: (RegistryState, RegistryAction))
    ensures
        r == registry_step(s, e),
{
    match (s, e) {
        (RegistryState::Initial, RegistryEvent::Start) => (
            RegistryState::Registering,
            RegistryAction::Register,
        ),
        (RegistryState::Registering, RegistryEvent::Registered) => (
            RegistryState::Heartbeating,
            RegistryAction::Heartbeat,
        ),
        (RegistryState::Registering, RegistryEvent::RegisterFailed) => (
            RegistryState::Stopped,
            RegistryAction::ReportFailure,
        ),
        (RegistryState::Heartbeating, RegistryEvent::Tick) => (
            RegistryState::Heartbeating,
            RegistryAction::Heartbeat,
        ),
        (RegistryState::Heartbeating, RegistryEvent::Shutdown) => (
            RegistryState::Deregistering,
            RegistryAction::Unregister,
        ),
        (RegistryState::Registering, RegistryEvent::Shutdown) => (
            RegistryState::Deregistering,
            RegistryAction::Unregister,
        ),
        (RegistryState::Initial, RegistryEvent::Shutdown) => (
            RegistryState::Stopped,
            RegistryAction::Nothing,
        ),
        (RegistryState::Deregistering, RegistryEvent::Unregistered) => (
            RegistryState::Stopped,
            RegistryAction::Nothing,
        ),
        _ => (s, RegistryAction::Nothing),
    }
}

/// Heartbeat and lease timing: a heartbeat at least every `heartbeat_secs`, and a lease or TTL
/// check that lives `ttl_secs`.
pub struct HeartbeatTiming {
    pub heartbeat_secs: u64,
    pub ttl_secs: u64,
}

/// The timing is usable and tolerates a missed heartbeat: at least one second between
/// heartbeats, and two of them fit in one TTL.
pub open spec fn calibrated(t: HeartbeatTiming) -> bool {
    t.heartbeat_secs >= 1 && 2 * t.heartbeat_secs <= t.ttl_secs
}

impl HeartbeatTiming {
    /// The timing for a requested heartbeat interval (20 seconds when none) and TTL: the TTL
    /// is raised to 2 seconds if shorter, and the interval lowered to half the TTL (and raised
    /// to 1 second) where it would not fit twice in it.
    pub fn calibrate(heartbeat_secs: Option<u64>, ttl_secs: u64) -> (r: HeartbeatTiming)
        ensures
            calibrated(r),
            r.ttl_secs == if ttl_secs < 2 { 2 } else { ttl_secs },
            r.heartbeat_secs == ({
                let want = match heartbeat_secs {
                    Some(h) => h,
                    None => DEFAULT_HEARTBEAT_SECS,
                };
                if want < 1 {
                    1
                } else if want > r.ttl_secs / 2 {
                    r.ttl_secs / 2
                } else {
                    want
                }
            }),
    {
        let ttl = if ttl_secs < 2 {
            2
        } else {
            ttl_secs
        };
        let want = match heartbeat_secs {
            Some(h) => h,
            None => DEFAULT_HEARTBEAT_SECS,
        };
        let hb = if want < 1 {
            1
        } else if want > ttl / 2 {
            ttl / 2
        } else {
            want
        };
        HeartbeatTiming { heartbeat_secs: hb, ttl_secs: ttl }
    }
}

/// A registered instance and the state of its heartbeat loop.
pub struct RegistryLoop {
    pub instance: ServiceInstance,
    pub heartbeat_secs: u64,
    pub state: RegistryState,
}

impl RegistryLoop {
    /// A loop for `instance` that has not registered yet.
    pub fn new(instance: ServiceInstance, heartbeat_secs: u64) -> (r: RegistryLoop)
        ensures
            r.instance@ == instance@,
            r.heartbeat_secs == heartbeat_secs,
            r.state == RegistryState::Initial,
    {
        RegistryLoop { instance, heartbeat_secs, state: RegistryState::Initial }
    }

    /// The instance being kept registered.
    pub fn instance(&self) -> (r: &ServiceInstance)
        ensures
            r@ == self.instance@,
    {
        &self.instance
    }

    /// Takes in one event, moves to the next state and says what to do.
    pub fn on_event(&mut self, e: RegistryEvent) -> (r: RegistryAction)
        ensures
            (final(self).state, r) == registry_step(old(self).state, e),
            final(self).instance@ == old(self).instance@,
            final(self).heartbeat_secs == old(self).heartbeat_secs,
    {
        let (next, action) = step(self.state, e);
        self.state = next;
        action
    }

    /// Replaces the instance that heartbeats carry; the driver re-registers it.
    pub fn update_instance(&mut self, instance: ServiceInstance)
        ensures
            final(self).instance@ == instance@,
            final(self).state == old(self).state,
            final(self).heartbeat_secs == old(self).heartbeat_secs,
    {
        self.instance = instance;
    }
}

/// Shutting down is idempotent: once deregistering or stopped, a further shutdown changes
/// nothing and asks for nothing.
pub proof fn lemma_shutdown_idempotent(s: RegistryState)
    requires
        s == RegistryState::Deregistering || s == RegistryState::Stopped,
    ensures
        registry_step(s, RegistryEvent::Shutdown) == (s, RegistryAction::Nothing),
{
}

/// A heartbeating loop keeps heartbeating through any run of ticks and heartbeat results, failed
/// ones included, as long as no shutdown comes; and each tick asks for a heartbeat.
pub proof fn lemma_heartbeats_survive_errors(events: Seq<RegistryEvent>)
    requires
        forall|i: int|
            0 <= i < events.len() ==> #[trigger] events[i] == RegistryEvent::Tick || events[i]
                == RegistryEvent::HeartbeatSucceeded || events[i] == RegistryEvent::HeartbeatFailed,
    ensures
        registry_run(RegistryState::Heartbeating, events) == RegistryState::Heartbeating,
        registry_step(RegistryState::Heartbeating, RegistryEvent::Tick).1 == RegistryAction::Heartbeat,
    decreases events.len(),
{
    if events.len() > 0 {
        let t = events.drop_last();
        assert forall|i: int| 0 <= i < t.len() implies #[trigger] t[i] == RegistryEvent::Tick || t[i]
            == RegistryEvent::HeartbeatSucceeded || t[i] == RegistryEvent::HeartbeatFailed by {
            assert(t[i] == events[i]);
        }
        lemma_heartbeats_survive_errors(t);
        assert(events[events.len() - 1] == events.last());
    }
}

/// A heartbeat is asked for only while registering or heartbeating, and an unregistration only
/// on a shutdown from one of those states.
pub proof fn lemma_actions_by_state(s: RegistryState, e: RegistryEvent)
    ensures
        registry_step(s, e).1 == RegistryAction::Heartbeat ==> (s == RegistryState::Heartbeating
            || s == RegistryState::Registering),
        registry_step(s, e).1 == RegistryAction::Unregister ==> (s == RegistryState::Heartbeating
            || s == RegistryState::Registering) && e == RegistryEvent::Shutdown && registry_step(
            s,
            e,
        ).0 == RegistryState::Deregistering,
{
}

} // verus!
