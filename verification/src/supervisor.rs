//! The process supervisor: one worker at a time, relaunched whenever a trigger fires,
//! until the operator asks for shutdown.
//!
//! The caller owns the child process and waits on the trigger sources. After each wait it
//! reports every trigger that had fired, and the supervisor says what to do. One trigger
//! is acted upon per round; the others reported with it are dropped.

use vstd::prelude::*;
use crate::package::PackageInfo;
use crate::paths::{join_path, joined};
use crate::text::{contains, contains_seq};

verus! {

/// An event that ends a round of supervision.
#[derive(Clone, Copy, Debug, PartialEq, Eq, Structural)]
pub enum Trigger {
    /// The operator asked for shutdown.
    Shutdown,
    /// The worker asked for a restart on one of its output streams.
    Sentinel,
    /// A newer version was installed and promoted.
    UpdateReady,
    /// The worker exited on its own.
    ChildExited,
}

/// The triggers that had fired when a wait ended.
#[derive(Clone, Copy, Debug, PartialEq, Eq, Structural)]
pub struct Triggers {
    pub shutdown: bool,
    pub sentinel: bool,
    pub update_ready: bool,
    pub child_exited: bool,
}

/// Where the supervisor stands.
#[derive(Clone, Copy, Debug, PartialEq, Eq, Structural)]
pub enum Phase {
    /// No worker is alive and one is to be launched.
    Launching,
    /// A worker is alive.
    Running,
    /// Supervision has ended; no worker will be launched again.
    Exited,
}

/// What the caller does after reporting triggers.
#[derive(Clone, Copy, Debug, PartialEq, Eq, Structural)]
pub enum Action {
    /// Nothing to act upon: keep waiting.
    Wait,
    /// Ask the worker to terminate and end supervision.
    Shutdown,
    /// Launch the worker again, after asking it to terminate unless it is already gone.
    /// The trigger is the one acted upon.
    Restart(Trigger),
}

/// The supervision loop's state.
#[derive(Debug, Clone, PartialEq, Eq)]
pub struct Supervisor {
    pub phase: Phase,
    /// How many workers were launched so far; it stops counting at `u64::MAX`.
    pub launches: u64,
    /// The arguments every worker is launched with.
    pub args: Vec<String>,
}

/// How to launch the worker.
#[derive(Debug, Clone, PartialEq, Eq)]
pub struct LaunchSpec {
    pub program: String,
    pub args: Vec<String>,
}

/// The text with which a worker asks for a restart.
pub open spec fn sentinel() -> Seq<char> {
    "restart-miner-now"@
}

impl Triggers {
    /// No trigger.
    pub fn none() -> (triggers: Triggers)
        ensures
            triggers == (Triggers {
                shutdown: false,
                sentinel: false,
                update_ready: false,
                child_exited: false,
            }),
    {
        Triggers { shutdown: false, sentinel: false, update_ready: false, child_exited: false }
    }

    /// The one trigger to act upon: shutdown before a restart request, a restart request
    /// before an update, an update before the worker's own exit.
    pub open spec fn chosen(self) -> Option<Trigger> {
        if self.shutdown {
            Some(Trigger::Shutdown)
        } else if self.sentinel {
            Some(Trigger::Sentinel)
        } else if self.update_ready {
            Some(Trigger::UpdateReady)
        } else if self.child_exited {
            Some(Trigger::ChildExited)
        } else {
            None
        }
    }

    /// The triggers with `trigger` added. Adding one that is already there changes nothing.
    pub open spec fn with(self, trigger: Trigger) -> Triggers {
        match trigger {
            Trigger::Shutdown => Triggers { shutdown: true, ..self },
            Trigger::Sentinel => Triggers { sentinel: true, ..self },
            Trigger::UpdateReady => Triggers { update_ready: true, ..self },
            Trigger::ChildExited => Triggers { child_exited: true, ..self },
        }
    }

    /// Records that `trigger` fired.
    pub fn record(&mut self, trigger: Trigger)
        ensures
            *final(self) == old(self).with(trigger),
    {
        match trigger {
            Trigger::Shutdown => {
                self.shutdown = true;
            },
            Trigger::Sentinel => {
                self.sentinel = true;
            },
            Trigger::UpdateReady => {
                self.update_ready = true;
            },
            Trigger::ChildExited => {
                self.child_exited = true;
            },
        }
    }

    /// The trigger to act upon, if any fired.
    pub fn choose_one(&self) -> (trigger: Option<Trigger>)
        ensures
            trigger == self.chosen(),
    {
        if self.shutdown {
            Some(Trigger::Shutdown)
        } else if self.sentinel {
            Some(Trigger::Sentinel)
        } else if self.update_ready {
            Some(Trigger::UpdateReady)
        } else if self.child_exited {
            Some(Trigger::ChildExited)
        } else {
            None
        }
    }
}

impl Action {
    /// Whether the action asks the worker to terminate. A worker that exited on its own
    /// is not asked.
    pub open spec fn terminates_child(self) -> bool {
        match self {
            Action::Wait => false,
            Action::Shutdown => true,
            Action::Restart(trigger) => trigger != Trigger::ChildExited,
        }
    }

    /// Whether the caller must ask the worker to terminate.
    pub fn kills_child(&self) -> (kill: bool)
        ensures
            kill == self.terminates_child(),
    {
        match self {
            Action::Wait => false,
            Action::Shutdown => true,
            Action::Restart(trigger) => match trigger {
                Trigger::ChildExited => false,
                _ => true,
            },
        }
    }
}

impl Supervisor {
    /// The action for a supervisor in `self`'s state to which `observed` is reported.
    pub open spec fn action_for(self, observed: Triggers) -> Action {
        if self.phase != Phase::Running {
            Action::Wait
        } else {
            match observed.chosen() {
                None => Action::Wait,
                Some(Trigger::Shutdown) => Action::Shutdown,
                Some(trigger) => Action::Restart(trigger),
            }
        }
    }

    /// The phase after `observed` is reported.
    pub open spec fn phase_after(self, observed: Triggers) -> Phase {
        match self.action_for(observed) {
            Action::Wait => self.phase,
            Action::Shutdown => Phase::Exited,
            Action::Restart(_) => Phase::Launching,
        }
    }

    /// The state after `observed` is reported.
    pub open spec fn arbitrated(self, observed: Triggers) -> Supervisor {
        Supervisor { phase: self.phase_after(observed), ..self }
    }

    /// The state after a launch attempt that succeeded (`ok`) or failed.
    pub open spec fn after_launch(self, ok: bool) -> Supervisor {
        if self.phase != Phase::Launching {
            self
        } else if ok {
            Supervisor {
                phase: Phase::Running,
                launches: if self.launches < u64::MAX {
                    (self.launches + 1) as u64
                } else {
                    self.launches
                },
                ..self
            }
        } else {
            Supervisor { phase: Phase::Exited, ..self }
        }
    }

    /// One full round: `observed` is reported and, if a relaunch is due, it succeeds.
    pub open spec fn after_round(self, observed: Triggers) -> Supervisor {
        self.arbitrated(observed).after_launch(true)
    }

    /// The state after one round for each element of `rounds`, in order.
    pub open spec fn after_rounds(self, rounds: Seq<Triggers>) -> Supervisor
        decreases rounds.len(),
    {
        if rounds.len() == 0 {
            self
        } else {
            self.after_round(rounds[0]).after_rounds(rounds.drop_first())
        }
    }

    /// The pending triggers that the next launch meets, and that the caller therefore
    /// drops before it launches: a restart request and the exit of the worker that is
    /// gone, and an update, which the launch picks up. A shutdown request is never
    /// dropped. Outside the launching phase nothing is dropped.
    pub open spec fn met_by_launch(self) -> Triggers {
        if self.phase == Phase::Launching {
            Triggers { shutdown: false, sentinel: true, update_ready: true, child_exited: true }
        } else {
            Triggers { shutdown: false, sentinel: false, update_ready: false, child_exited: false }
        }
    }

    /// The pending triggers to drop before the next launch.
    pub fn stale_triggers(&self) -> (stale: Triggers)
        ensures
            stale == self.met_by_launch(),
    {
        match self.phase {
            Phase::Launching => Triggers {
                shutdown: false,
                sentinel: true,
                update_ready: true,
                child_exited: true,
            },
            _ => Triggers::none(),
        }
    }

    /// A supervisor that is about to launch its first worker with `args`.
    pub fn new(args: Vec<String>) -> (supervisor: Supervisor)
        ensures
            supervisor.phase == Phase::Launching,
            supervisor.launches == 0,
            supervisor.args == args,
    {
        Supervisor { phase: Phase::Launching, launches: 0, args }
    }

    /// Records how a launch attempt ended. A successful launch starts a round; a failed
    /// one ends supervision. Outside the launching phase nothing changes.
    pub fn launched(&mut self, ok: bool)
        ensures
            *final(self) == old(self).after_launch(ok),
    {
        match self.phase {
            Phase::Launching => {
                if ok {
                    self.phase = Phase::Running;
                    if self.launches < u64::MAX {
                        self.launches = self.launches + 1;
                    }
                } else {
                    self.phase = Phase::Exited;
                }
            },
            _ => {},
        }
    }

    /// Reports the triggers that had fired when the wait ended and says what to do.
    ///
    /// While a worker is running, exactly one of the reported triggers is acted upon and
    /// the rest are dropped. Shutdown ends supervision; any other trigger calls for a
    /// relaunch. With no worker running, or nothing reported, the answer is to wait.
    pub fn arbitrate(&mut self, observed: Triggers) -> (action: Action)
        ensures
            action == old(self).action_for(observed),
            *final(self) == old(self).arbitrated(observed),
    {
        match self.phase {
            Phase::Running => {},
            _ => {
                return Action::Wait;
            },
        }
        match observed.choose_one() {
            None => Action::Wait,
            Some(Trigger::Shutdown) => {
                self.phase = Phase::Exited;
                Action::Shutdown
            },
            Some(trigger) => {
                self.phase = Phase::Launching;
                Action::Restart(trigger)
            },
        }
    }
}

/// What a scanner does with one line of worker output.
#[derive(Clone, Copy, Debug, PartialEq, Eq, Structural)]
pub enum LineVerdict {
    /// Pass the line on, unchanged, to the log sink.
    Forward,
    /// The line asks for a restart: signal it, keep the line from the log sink, and stop
    /// reading the stream.
    Restart,
    /// The scanner already signalled a restart: the line is not read.
    Closed,
}

/// The scanner of one output stream of one worker.
#[derive(Clone, Copy, Debug, PartialEq, Eq, Structural)]
pub struct LineScanner {
    /// Whether the scanner has signalled a restart.
    pub fired: bool,
}

/// Whether a line asks for a restart.
pub open spec fn asks_restart(line: Seq<char>) -> bool {
    contains_seq(line, sentinel())
}

/// Index of the first line at or after `from` that asks for a restart.
pub open spec fn first_request(lines: Seq<String>, from: int) -> Option<int>
    decreases lines.len() - from + 1,
{
    if from < 0 || from >= lines.len() {
        None
    } else if asks_restart(lines[from]@) {
        Some(from)
    } else {
        first_request(lines, from + 1)
    }
}

impl LineScanner {
    /// A scanner for a fresh stream.
    pub fn new() -> (scanner: LineScanner)
        ensures
            !scanner.fired,
    {
        LineScanner { fired: false }
    }

    /// The verdict of a scanner in `self`'s state on `line`.
    pub open spec fn verdict_for(self, line: Seq<char>) -> LineVerdict {
        if self.fired {
            LineVerdict::Closed
        } else if asks_restart(line) {
            LineVerdict::Restart
        } else {
            LineVerdict::Forward
        }
    }

    /// Takes the next line of the stream.
    pub fn feed(&mut self, line: &str) -> (verdict: LineVerdict)
        ensures
            verdict == old(self).verdict_for(line@),
            final(self).fired == (old(self).fired || asks_restart(line@)),
    {
        if self.fired {
            return LineVerdict::Closed;
        }
        if contains(line, "restart-miner-now") {
            self.fired = true;
            LineVerdict::Restart
        } else {
            LineVerdict::Forward
        }
    }
}

/// Scans the lines of one stream in order. Returns how many leading lines go to the log
/// sink, and whether a restart was signalled: the lines before the first one that asks
/// for a restart are forwarded, that line and all after it are not.
pub fn scan_lines(lines: &Vec<String>) -> (result: (usize, bool))
    ensures
        match first_request(lines@, 0) {
            Some(i) => result == (i as usize, true),
            None => result == (lines.len(), false),
        },
{
    let mut scanner = LineScanner::new();
    let mut i: usize = 0;
    while i < lines.len()
        invariant
            i <= lines.len(),
            !scanner.fired,
            first_request(lines@, 0) == first_request(lines@, i as int),
        decreases lines.len() - i,
    {
        match scanner.feed(lines[i].as_str()) {
            LineVerdict::Forward => {},
            _ => {
                return (i, true);
            },
        }
        i += 1;
    }
    (i, false)
}

/// No line that asks for a restart is ever forwarded: every line before the first
/// request is free of the sentinel, and the scan forwards no line from the request on.
pub proof fn law_sentinel_never_forwarded(lines: Seq<String>, from: int)
    requires
        0 <= from,
    ensures
        match first_request(lines, from) {
            Some(i) => from <= i < lines.len() && asks_restart(lines[i]@) && forall|j: int|
                from <= j < i ==> !asks_restart(#[trigger] lines[j]@),
            None => forall|j: int| from <= j < lines.len() ==> !asks_restart(#[trigger] lines[j]@),
        },
    decreases lines.len() - from + 1,
{
    if from >= lines.len() {
    } else if asks_restart(lines[from]@) {
    } else {
        law_sentinel_never_forwarded(lines, from + 1);
    }
}

/// How many leading lines of a stream go to the log sink.
pub open spec fn forwarded_count(lines: Seq<String>) -> int {
    match first_request(lines, 0) {
        Some(i) => i,
        None => lines.len() as int,
    }
}

/// The triggers of a round in which the worker printed `stdout` and `stderr` while
/// `others` fired: both scanners signal through one restart trigger.
pub open spec fn round_triggers(stdout: Seq<String>, stderr: Seq<String>, others: Triggers) -> Triggers {
    Triggers {
        sentinel: others.sentinel || first_request(stdout, 0) is Some || first_request(stderr, 0)
            is Some,
        ..others
    }
}

/// A restart request on either output stream, at any line, ends the round in exactly one
/// relaunch, whatever else fired short of shutdown and even when both streams carry a
/// request; and no line that carries a request is among the lines forwarded.
pub proof fn law_restart_request_relaunches_once(
    supervisor: Supervisor,
    stdout: Seq<String>,
    stderr: Seq<String>,
    others: Triggers,
)
    requires
        supervisor.phase == Phase::Running,
        supervisor.launches < u64::MAX,
        !others.shutdown,
        first_request(stdout, 0) is Some || first_request(stderr, 0) is Some,
    ensures
        supervisor.action_for(round_triggers(stdout, stderr, others)) == Action::Restart(
            Trigger::Sentinel,
        ),
        supervisor.after_round(round_triggers(stdout, stderr, others)).phase == Phase::Running,
        supervisor.after_round(round_triggers(stdout, stderr, others)).launches
            == supervisor.launches + 1,
        forall|j: int| 0 <= j < forwarded_count(stdout) ==> !asks_restart(#[trigger] stdout[j]@),
        forall|j: int| 0 <= j < forwarded_count(stderr) ==> !asks_restart(#[trigger] stderr[j]@),
        0 <= forwarded_count(stdout) <= stdout.len(),
        0 <= forwarded_count(stderr) <= stderr.len(),
{
    law_sentinel_never_forwarded(stdout, 0);
    law_sentinel_never_forwarded(stderr, 0);
}

impl PackageInfo {
    /// How to launch the worker: the binary behind the current pointer, with `args`
    /// passed through unchanged.
    pub fn run_miner(&self, args: &[String]) -> (launch: LaunchSpec)
        ensures
            launch.program@ == joined(self.current_symlink@, self.bin_name@),
            launch.args@.len() == args@.len(),
            forall|i: int| 0 <= i < args@.len() ==> (#[trigger] launch.args@[i])@ == args@[i]@,
    {
        let program = join_path(self.current_symlink.as_str(), self.bin_name.as_str());
        let mut passed: Vec<String> = Vec::new();
        let mut i: usize = 0;
        while i < args.len()
            invariant
                i <= args@.len(),
                passed@.len() == i,
                forall|j: int| 0 <= j < i ==> (#[trigger] passed@[j])@ == args@[j]@,
            decreases args@.len() - i,
        {
            passed.push(args[i].clone());
            i += 1;
        }
        LaunchSpec { program, args: passed }
    }
}

/// However many triggers fire in one round, the round ends in exactly one relaunch,
/// unless shutdown is among them: then supervision ends and nothing is launched.
pub proof fn law_one_relaunch_per_round(supervisor: Supervisor, observed: Triggers)
    requires
        supervisor.phase == Phase::Running,
        supervisor.launches < u64::MAX,
        observed.chosen() is Some,
    ensures
        observed.shutdown ==> supervisor.after_round(observed).phase == Phase::Exited
            && supervisor.after_round(observed).launches == supervisor.launches
            && supervisor.action_for(observed) == Action::Shutdown,
        !observed.shutdown ==> supervisor.after_round(observed).phase == Phase::Running
            && supervisor.after_round(observed).launches == supervisor.launches + 1
            && supervisor.action_for(observed) == Action::Restart(observed.chosen()->0),
        supervisor.after_round(observed).args == supervisor.args,
{
}

/// A shutdown request is never dropped: whatever the phase, it is not among the triggers
/// that a launch meets, and once reported to a running supervisor it ends supervision
/// whatever else is reported with it.
pub proof fn law_shutdown_is_never_dropped(supervisor: Supervisor, observed: Triggers)
    ensures
        !supervisor.met_by_launch().shutdown,
        supervisor.phase == Phase::Running && observed.shutdown ==> supervisor.action_for(
            observed,
        ) == Action::Shutdown && supervisor.arbitrated(observed).phase == Phase::Exited,
{
}

/// Once supervision has ended, no report and no launch attempt starts a worker again.
pub proof fn law_exited_is_final(supervisor: Supervisor, rounds: Seq<Triggers>)
    requires
        supervisor.phase == Phase::Exited,
    ensures
        supervisor.after_rounds(rounds) == supervisor,
    decreases rounds.len(),
{
    if rounds.len() > 0 {
        assert(supervisor.after_round(rounds[0]) == supervisor);
        law_exited_is_final(supervisor, rounds.drop_first());
    }
}

/// The number of rounds, each with at least one trigger, before the first one that
/// holds a shutdown request.
pub open spec fn rounds_before_shutdown(rounds: Seq<Triggers>) -> nat
    decreases rounds.len(),
{
    if rounds.len() == 0 || rounds[0].shutdown {
        0
    } else {
        1 + rounds_before_shutdown(rounds.drop_first())
    }
}

/// Over any sequence of rounds in which something fired, the workers launched are one
/// per round up to the first shutdown request, and none after it.
pub proof fn law_relaunches_count_rounds(supervisor: Supervisor, rounds: Seq<Triggers>)
    requires
        supervisor.phase == Phase::Running,
        supervisor.launches + rounds.len() <= u64::MAX,
        forall|i: int| 0 <= i < rounds.len() ==> (#[trigger] rounds[i]).chosen() is Some,
    ensures
        supervisor.after_rounds(rounds).launches == supervisor.launches + rounds_before_shutdown(
            rounds,
        ),
        supervisor.after_rounds(rounds).phase == if rounds_before_shutdown(rounds)
            == rounds.len() {
            Phase::Running
        } else {
            Phase::Exited
        },
    decreases rounds.len(),
{
    if rounds.len() == 0 {
    } else {
        let next = supervisor.after_round(rounds[0]);
        let rest = rounds.drop_first();
        assert(rounds[0].chosen() is Some);
        if rounds[0].shutdown {
            law_exited_is_final(next, rest);
        } else {
            assert forall|i: int| 0 <= i < rest.len() implies (#[trigger] rest[i]).chosen()
                is Some by {
                assert(rest[i] == rounds[i + 1]);
            }
            law_relaunches_count_rounds(next, rest);
        }
    }
}

} // verus!
