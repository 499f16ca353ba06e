//! Leadership: only the leader among the controllers works for schedule triggers.
use crate::error::KubeError;
use vstd::prelude::*;

verus! {

/// Lease of the leader, where none is named.
pub const DEFAULT_LEADER_LOCK_LEASE_NAME: &'static str = "git-events-runner-leader-lock";

/// What came of creating the lease.
#[derive(Debug)]
pub enum LeaseOutcome {
    /// It was created.
    Created,
    /// It was there already, or that isn't known.
    Assumed,
    /// The API refused to create it.
    Refused(KubeError),
}

/// Code of an answer that says that a resource is there already.
pub const CONFLICT: u16 = 409;

/// What came of creating the lease. That it is there already is as good. An API that couldn't be asked
/// leaves it open.
pub fn lease_outcome(created: Result<(), KubeError>) -> (r: LeaseOutcome)
    ensures
        r == match created {
            Ok(_) => LeaseOutcome::Created,
            Err(error) => match error {
                KubeError::Api { code, .. } => if code == 409 {
                    LeaseOutcome::Assumed
                } else {
                    LeaseOutcome::Refused(error)
                },
                KubeError::Other { .. } => LeaseOutcome::Assumed,
            },
        },
{
    match created {
        Ok(_) => LeaseOutcome::Created,
        Err(error) => {
            let conflict: bool = match &error {
                KubeError::Api { code, .. } => *code == CONFLICT,
                KubeError::Other { .. } => true,
            };
            if conflict {
                LeaseOutcome::Assumed
            } else {
                LeaseOutcome::Refused(error)
            }
        },
    }
}

/// Lock that its holder leads by.
#[derive(Debug)]
pub struct LeaderLock {
    /// Identity of the controller.
    pub identity: String,
    /// Namespace of the lease.
    pub namespace: String,
    /// Name of the lease.
    pub name: String,
    /// The controller holds the lock.
    pub claimed: bool,
}

/// What happens while the lock is watched.
#[derive(Clone, Copy, Debug, PartialEq, Eq, Structural)]
pub enum LockEvent {
    /// The lock is seen to be held by the controller, or not.
    Claim(bool),
    /// The controller is to shut down.
    Shutdown,
    /// There will be no more news of the lock.
    Closed,
}

impl LeaderLock {
    /// Lock that isn't held yet.
    pub fn new(identity: String, namespace: Option<String>) -> (r: LeaderLock)
        ensures
            r.identity == identity,
            r.namespace@ == match namespace {
                Some(ns) => ns@,
                None => "default"@,
            },
            r.name@ == "git-events-runner-leader-lock"@,
            !r.claimed,
    {
        let ns = match namespace {
            Some(ns) => ns,
            None => "default".to_owned(),
        };
        LeaderLock {
            identity,
            namespace: ns,
            name: DEFAULT_LEADER_LOCK_LEASE_NAME.to_owned(),
            claimed: false,
        }
    }

    /// Takes up an event while a change of the lock is waited for. Tells of a change, or that there
    /// will be none, or goes on waiting.
    pub fn wait_for_change(&mut self, event: LockEvent) -> (r: Option<Result<bool, ()>>)
        ensures
            final(self).identity == old(self).identity,
            final(self).namespace == old(self).namespace,
            final(self).name == old(self).name,
            match event {
                LockEvent::Claim(claimed) => final(self).claimed == claimed && r == (if claimed
                    == old(self).claimed {
                    None
                } else {
                    Some(Ok::<bool, ()>(claimed))
                }),
                _ => final(self).claimed == old(self).claimed && r == Some(Err::<bool, ()>(())),
            },
    {
        match event {
            LockEvent::Claim(claimed) => if claimed != self.claimed {
                self.claimed = claimed;
                Some(Ok(claimed))
            } else {
                None
            },
            LockEvent::Shutdown | LockEvent::Closed => Some(Err(())),
        }
    }

    /// Tells whether the controller holds the lock.
    pub fn is_locked(&self) -> (r: bool)
        ensures
            r == self.claimed,
    {
        self.claimed
    }
}

/// Main loop of the controller: it follows the leadership until it is to shut down.
#[derive(Clone, Copy, Debug, PartialEq, Eq, Structural)]
pub struct LeaderLoop {
    /// The controller leads, and works for schedule triggers.
    pub is_leader: bool,
    /// The controller is ready to serve.
    pub ready: bool,
    /// The controller is to shut down.
    pub shutdown: bool,
}

/// What happens while the main loop waits.
#[derive(Clone, Copy, Debug, PartialEq, Eq, Structural)]
pub enum LeaderEvent {
    /// A signal asks to shut down.
    Signal,
    /// The controller is seen to lead, or not to.
    Leadership(bool),
    /// There will be no more news of the leadership.
    ChannelClosed,
}

/// What the main loop does then.
#[derive(Clone, Copy, Debug, PartialEq, Eq, Structural)]
pub enum LeaderStep {
    /// It goes on waiting.
    Wait,
    /// It stops working for schedule triggers if it did, and tells all others to shut down if
    /// `shutdown_all` is set. Then it ends if `exit` is set, and goes round again otherwise.
    Leave {
        /// The controllers of schedule triggers are running and have to be stopped.
        stop_controllers: bool,
        /// All others are told to shut down.
        shutdown_all: bool,
        /// The loop ends.
        exit: bool,
    },
}

impl LeaderLoop {
    /// Goes into the loop, or round again: works for schedule triggers if the controller leads.
    pub fn enter(is_leader: bool) -> (r: LeaderLoop)
        ensures
            r == (LeaderLoop { is_leader, ready: true, shutdown: false }),
    {
        LeaderLoop { is_leader, ready: true, shutdown: false }
    }

    /// Takes up an event. Without news of the leadership the loop waits for a signal, and ends.
    pub fn on_event(&mut self, event: LeaderEvent) -> (r: LeaderStep)
        ensures
            (*final(self), r) == leader_next(*old(self), event),
    {
        match event {
            LeaderEvent::Signal => {
                self.shutdown = true;
                LeaderStep::Leave { stop_controllers: self.is_leader, shutdown_all: true, exit: true }
            },
            LeaderEvent::Leadership(leads) => if leads == self.is_leader {
                LeaderStep::Wait
            } else {
                LeaderStep::Leave {
                    stop_controllers: self.is_leader,
                    shutdown_all: false,
                    exit: self.shutdown,
                }
            },
            LeaderEvent::ChannelClosed => {
                self.shutdown = true;
                LeaderStep::Wait
            },
        }
    }
}

/// The loop after an event, and what it does then: a signal ends it, and a change of the leadership
/// makes it go round again.
pub open spec fn leader_next(state: LeaderLoop, event: LeaderEvent) -> (LeaderLoop, LeaderStep) {
    match event {
        LeaderEvent::Signal => (
            LeaderLoop { shutdown: true, ..state },
            LeaderStep::Leave { stop_controllers: state.is_leader, shutdown_all: true, exit: true },
        ),
        LeaderEvent::Leadership(leads) => (
            state,
            if leads == state.is_leader {
                LeaderStep::Wait
            } else {
                LeaderStep::Leave {
                    stop_controllers: state.is_leader,
                    shutdown_all: false,
                    exit: state.shutdown,
                }
            },
        ),
        LeaderEvent::ChannelClosed => (LeaderLoop { shutdown: true, ..state }, LeaderStep::Wait),
    }
}

/// The loop while it waits through events, up to the first that makes it leave.
pub open spec fn waits_through(state: LeaderLoop, events: Seq<LeaderEvent>) -> Option<LeaderLoop>
    decreases events.len(),
{
    if events.len() == 0 {
        Some(state)
    } else {
        match waits_through(state, events.drop_last()) {
            Some(before) => {
                let (after, step) = leader_next(before, events.last());
                if step == LeaderStep::Wait {
                    Some(after)
                } else {
                    None
                }
            },
            None => None,
        }
    }
}

/// However long it waits, the loop works for schedule triggers if and only if the controller led when
/// it went in, and it stops doing so when it leaves.
pub proof fn law_controllers_follow_leadership(start: LeaderLoop, events: Seq<LeaderEvent>, last: LeaderEvent)
    requires
        waits_through(start, events) is Some,
    ensures
        waits_through(start, events)->0.is_leader == start.is_leader,
        leader_next(waits_through(start, events)->0, last).1 matches LeaderStep::Leave { stop_controllers, .. }
            ==> stop_controllers == start.is_leader,
    decreases events.len(),
{
    if events.len() > 0 {
        law_controllers_follow_leadership(start, events.drop_last(), events.last());
    }
}

/// Once it is to shut down, the loop doesn't go round again: it ends when it leaves.
pub proof fn law_shutdown_is_final(state: LeaderLoop, event: LeaderEvent)
    requires
        state.shutdown,
    ensures
        leader_next(state, event).0.shutdown,
        leader_next(state, event).1 matches LeaderStep::Leave { exit, .. } ==> exit,
{
}

} // verus!
