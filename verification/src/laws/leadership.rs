//! Leadership.
use crate::error::KubeError;
use crate::leader::{
    lease_outcome, LeaderEvent, LeaderLock, LeaderLoop, LeaderStep, LeaseOutcome, LockEvent,
};
use vstd::prelude::*;

verus! {

/// Only an answer of the API other than a conflict is a reason to give up on the lease.
pub proof fn law_lease_may_be_there_already(created: Result<(), KubeError>, r: LeaseOutcome)
    requires
        call_ensures(lease_outcome, (created,), r),
    ensures
        r is Created == created is Ok,
        r is Refused == (created matches Err(KubeError::Api { code, response, text }) && code != 409),
        r matches LeaseOutcome::Refused(error) ==> created == Err::<(), KubeError>(error),
{
}

/// The lock stands in the namespace under a fixed name, and isn't held at first.
pub proof fn law_lock_is_free_at_first(identity: String, ns: Option<String>, lock: LeaderLock, locked: bool)
    requires
        call_ensures(LeaderLock::new, (identity, ns), lock),
        call_ensures(LeaderLock::is_locked, (&lock,), locked),
    ensures
        !locked,
        lock.identity == identity,
        ns matches Some(n) ==> lock.namespace@ == n@,
        ns is None ==> lock.namespace@ == "default"@,
        lock.name@ == "git-events-runner-leader-lock"@,
{
}

/// The lock is held as was last seen, and a change is told once.
pub proof fn law_change_of_the_lock_is_told_once(
    lock1: &mut LeaderLock,
    claimed: bool,
    r1: Option<Result<bool, ()>>,
    lock2: &mut LeaderLock,
    r2: Option<Result<bool, ()>>,
    locked: bool,
)
    requires
        call_ensures(LeaderLock::wait_for_change, (lock1, LockEvent::Claim(claimed)), r1),
        *old(lock2) == *final(lock1),
        call_ensures(LeaderLock::wait_for_change, (lock2, LockEvent::Claim(claimed)), r2),
        call_ensures(LeaderLock::is_locked, (final(lock1),), locked),
    ensures
        locked == claimed,
        r1 is Some == (old(lock1).claimed != claimed),
        r1 is Some ==> r1->0 == Ok::<bool, ()>(claimed),
        r2 is None,
        *final(lock2) == *old(lock2),
        final(lock1).identity == old(lock1).identity,
        final(lock1).namespace == old(lock1).namespace,
        final(lock1).name == old(lock1).name,
{
}

/// Nothing is waited for once there will be no more news.
pub proof fn law_end_of_news_is_told(lock: &mut LeaderLock, event: LockEvent, r: Option<Result<bool, ()>>)
    requires
        call_ensures(LeaderLock::wait_for_change, (lock, event), r),
        event == LockEvent::Shutdown || event == LockEvent::Closed,
    ensures
        r == Some(Err::<bool, ()>(())),
        *final(lock) == *old(lock),
{
}

/// The main loop is ready when it is entered, and isn't to shut down.
pub proof fn law_loop_is_entered(is_leader: bool, r: LeaderLoop)
    requires
        call_ensures(LeaderLoop::enter, (is_leader,), r),
    ensures
        r.is_leader == is_leader,
        r.ready,
        !r.shutdown,
{
}

/// A signal ends the loop and all others. The controllers of schedule triggers are stopped if they run.
pub proof fn law_signal_ends_the_loop(state: &mut LeaderLoop, r: LeaderStep)
    requires
        call_ensures(LeaderLoop::on_event, (state, LeaderEvent::Signal), r),
    ensures
        final(state).shutdown,
        final(state).is_leader == old(state).is_leader,
        r matches LeaderStep::Leave { stop_controllers, shutdown_all, exit } && stop_controllers
            == old(state).is_leader && shutdown_all && exit,
{
}

/// The loop goes on as long as the leadership stays, and is left when it changes: to go round again, or
/// for good if it is to shut down.
pub proof fn law_leadership_is_followed(state: &mut LeaderLoop, leads: bool, r: LeaderStep)
    requires
        call_ensures(LeaderLoop::on_event, (state, LeaderEvent::Leadership(leads)), r),
    ensures
        *final(state) == *old(state),
        leads == old(state).is_leader ==> r == LeaderStep::Wait,
        leads != old(state).is_leader ==> (r matches LeaderStep::Leave { stop_controllers, shutdown_all, exit }
            && stop_controllers == old(state).is_leader && !shutdown_all && exit == old(state).shutdown),
{
}

/// Without news of the leadership the loop waits for its end.
pub proof fn law_loop_without_news_waits_for_its_end(
    state1: &mut LeaderLoop,
    r1: LeaderStep,
    state2: &mut LeaderLoop,
    event: LeaderEvent,
    r2: LeaderStep,
)
    requires
        call_ensures(LeaderLoop::on_event, (state1, LeaderEvent::ChannelClosed), r1),
        *old(state2) == *final(state1),
        call_ensures(LeaderLoop::on_event, (state2, event), r2),
    ensures
        r1 == LeaderStep::Wait,
        final(state1).is_leader == old(state1).is_leader,
        final(state2).shutdown,
        r2 matches LeaderStep::Leave { stop_controllers, shutdown_all, exit } ==> exit,
{
}

} // verus!
