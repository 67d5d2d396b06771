//! The background update watcher: on every tick it checks for a newer release, applies
//! it, and only then announces it.
//!
//! The caller sleeps, asks the release source, carries out the steps and delivers the
//! notification; the watcher decides what comes next. No failure ends the watcher: it
//! goes back to waiting for the next tick.

use vstd::prelude::*;
use crate::package::PackageInfo;
use crate::release::ResolveError;
use crate::store::StoreOp;

verus! {

/// Seconds between two checks for a newer release.
pub const UPDATE_INTERVAL: u64 = 15 * 60;

/// Where the watcher stands.
#[derive(Clone, Copy, Debug, PartialEq, Eq, Structural)]
pub enum WatchPhase {
    /// Waiting for the next tick.
    Waiting,
    /// A check is under way.
    Checking,
    /// The steps of an update are being carried out.
    Applying,
}

/// What the caller reports to the watcher.
#[derive(Clone, Copy, Debug, PartialEq, Eq, Structural)]
pub enum WatchEvent {
    /// The interval has elapsed.
    Tick,
    /// The check failed: the release could not be resolved.
    CheckFailed,
    /// The check found the installed version to be the latest.
    UpToDate,
    /// The check found another version and planned the steps to it.
    UpdateFound,
    /// Every planned step succeeded: the version is installed and promoted.
    Applied,
    /// A planned step failed.
    ApplyFailed,
}

/// What the caller does next.
#[derive(Clone, Copy, Debug, PartialEq, Eq, Structural)]
pub enum WatchAction {
    /// Nothing: the event does not belong to the watcher's phase.
    Ignore,
    /// Wait for the interval to elapse, then report a tick.
    Sleep,
    /// Read the current version and resolve the latest release, as one critical section.
    Check,
    /// Carry out the planned steps, within the same critical section.
    Apply,
    /// Announce that an update is ready, then wait for the interval to elapse.
    Notify,
}

/// The watcher's state.
#[derive(Clone, Copy, Debug, PartialEq, Eq, Structural)]
pub struct UpdateWatcher {
    pub phase: WatchPhase,
    /// Seconds between two checks.
    pub interval: u64,
}

/// The event that the outcome of a check stands for.
pub open spec fn event_of_plan(plan: Result<Vec<StoreOp>, ResolveError>) -> WatchEvent {
    match plan {
        Err(_) => WatchEvent::CheckFailed,
        Ok(ops) => if ops@.len() == 0 {
            WatchEvent::UpToDate
        } else {
            WatchEvent::UpdateFound
        },
    }
}

impl UpdateWatcher {
    /// The action for a watcher in `self`'s state to which `event` is reported.
    pub open spec fn action_for(self, event: WatchEvent) -> WatchAction {
        match (self.phase, event) {
            (WatchPhase::Waiting, WatchEvent::Tick) => WatchAction::Check,
            (WatchPhase::Checking, WatchEvent::CheckFailed) => WatchAction::Sleep,
            (WatchPhase::Checking, WatchEvent::UpToDate) => WatchAction::Sleep,
            (WatchPhase::Checking, WatchEvent::UpdateFound) => WatchAction::Apply,
            (WatchPhase::Applying, WatchEvent::Applied) => WatchAction::Notify,
            (WatchPhase::Applying, WatchEvent::ApplyFailed) => WatchAction::Sleep,
            _ => WatchAction::Ignore,
        }
    }

    /// The state after `event` is reported.
    pub open spec fn after(self, event: WatchEvent) -> UpdateWatcher {
        UpdateWatcher {
            phase: match self.action_for(event) {
                WatchAction::Ignore => self.phase,
                WatchAction::Sleep => WatchPhase::Waiting,
                WatchAction::Notify => WatchPhase::Waiting,
                WatchAction::Check => WatchPhase::Checking,
                WatchAction::Apply => WatchPhase::Applying,
            },
            ..self
        }
    }

    /// Reports `event` and says what to do next.
    pub fn step(&mut self, event: WatchEvent) -> (action: WatchAction)
        ensures
            action == old(self).action_for(event),
            *final(self) == old(self).after(event),
    {
        let action = match (self.phase, event) {
            (WatchPhase::Waiting, WatchEvent::Tick) => WatchAction::Check,
            (WatchPhase::Checking, WatchEvent::CheckFailed) => WatchAction::Sleep,
            (WatchPhase::Checking, WatchEvent::UpToDate) => WatchAction::Sleep,
            (WatchPhase::Checking, WatchEvent::UpdateFound) => WatchAction::Apply,
            (WatchPhase::Applying, WatchEvent::Applied) => WatchAction::Notify,
            (WatchPhase::Applying, WatchEvent::ApplyFailed) => WatchAction::Sleep,
            _ => WatchAction::Ignore,
        };
        match action {
            WatchAction::Ignore => {},
            WatchAction::Sleep => {
                self.phase = WatchPhase::Waiting;
            },
            WatchAction::Notify => {
                self.phase = WatchPhase::Waiting;
            },
            WatchAction::Check => {
                self.phase = WatchPhase::Checking;
            },
            WatchAction::Apply => {
                self.phase = WatchPhase::Applying;
            },
        }
        action
    }

    /// The event that the outcome of a check stands for: a failure, nothing to do, or
    /// steps to carry out.
    pub fn event_for(plan: &Result<Vec<StoreOp>, ResolveError>) -> (event: WatchEvent)
        ensures
            event == event_of_plan(*plan),
    {
        match plan {
            Err(_) => WatchEvent::CheckFailed,
            Ok(ops) => if ops.len() == 0 {
                WatchEvent::UpToDate
            } else {
                WatchEvent::UpdateFound
            },
        }
    }
}

impl PackageInfo {
    /// The watcher of a process that just started: it waits for its first tick.
    pub fn start_update_watcher() -> (watcher: UpdateWatcher)
        ensures
            watcher == (UpdateWatcher { phase: WatchPhase::Waiting, interval: UPDATE_INTERVAL }),
    {
        UpdateWatcher { phase: WatchPhase::Waiting, interval: UPDATE_INTERVAL }
    }
}

/// An update is announced only when its steps have all been carried out, and steps are
/// carried out only for an update that a check found: no restart is ever asked for a
/// version that is not fully installed and promoted.
pub proof fn law_notify_follows_apply(watcher: UpdateWatcher, event: WatchEvent)
    ensures
        watcher.action_for(event) == WatchAction::Notify <==> watcher.phase == WatchPhase::Applying
            && event == WatchEvent::Applied,
        watcher.after(event).phase == WatchPhase::Applying && watcher.phase
            != WatchPhase::Applying ==> watcher.phase == WatchPhase::Checking && event
            == WatchEvent::UpdateFound,
        watcher.after(event).phase == WatchPhase::Checking && watcher.phase
            != WatchPhase::Checking ==> watcher.phase == WatchPhase::Waiting && event
            == WatchEvent::Tick,
{
}

/// No failure ends the watcher: after a failed check or a failed step it waits for the
/// next tick, and from waiting a tick always starts a check.
pub proof fn law_failures_are_absorbed(watcher: UpdateWatcher)
    ensures
        watcher.phase == WatchPhase::Checking ==> watcher.after(WatchEvent::CheckFailed).phase
            == WatchPhase::Waiting,
        watcher.phase == WatchPhase::Applying ==> watcher.after(WatchEvent::ApplyFailed).phase
            == WatchPhase::Waiting,
        watcher.phase == WatchPhase::Waiting ==> watcher.action_for(WatchEvent::Tick)
            == WatchAction::Check,
{
}

} // verus!
