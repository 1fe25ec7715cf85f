//! Shutdown: one cancellation for the first termination signal, and a count
//! of the running tasks that tells when the process may leave.
//!
//! The caller owns the signal handler, the cancellation token and the tasks.
//! It reports each signal, each task it wants to start and each task that
//! has finished, and does what the answers say.

use vstd::prelude::*;

verus! {

/// A termination request from the operating system.
#[derive(Debug, Clone, Copy, PartialEq, Eq, Structural)]
pub enum Signal {
    /// The interrupt signal.
    Interrupt,
    /// The terminate signal.
    Terminate,
}

/// Where the shutdown stands.
#[derive(Debug, Clone, Copy, PartialEq, Eq, Structural)]
pub enum Stage {
    /// No signal has arrived; tasks may be registered.
    Running,
    /// The first signal has arrived and cancellation has been fired.
    CancellationRequested,
    /// The caller waits for the registered tasks to finish.
    Draining,
    /// Every registered task has finished.
    Stopped,
}

/// What the caller may report.
pub enum Report {
    /// A task is about to be started.
    Spawn,
    /// A termination signal has arrived.
    Signal(Signal),
    /// A task has finished.
    Completed,
    /// The caller asks whether it may leave.
    Stop,
}

/// The state of a launcher as contracts see it.
pub struct LauncherView {
    pub stage: Stage,
    /// Tasks registered so far.
    pub registered: nat,
    /// Registered tasks that have finished.
    pub completed: nat,
}

impl LauncherView {
    /// No more tasks have finished than were registered, the count fits the
    /// machine, tasks are outstanding while draining, and none once
    /// stopped.
    pub open spec fn wf(self) -> bool {
        &&& self.completed <= self.registered <= usize::MAX
        &&& self.stage == Stage::Draining ==> self.completed < self.registered
        &&& self.stage == Stage::Stopped ==> self.completed == self.registered
    }

    /// Whether a task asking to be started is taken on.
    pub open spec fn accepts(self) -> bool {
        self.stage == Stage::Running && self.registered < usize::MAX
    }

    /// The state after a task asked to be started.
    pub open spec fn spawned(self) -> LauncherView {
        if self.accepts() {
            LauncherView { registered: self.registered + 1, ..self }
        } else {
            self
        }
    }

    /// Whether a signal arriving now fires the cancellation.
    pub open spec fn fires(self) -> bool {
        self.stage == Stage::Running
    }

    /// The state after a signal arrived.
    pub open spec fn signalled(self) -> LauncherView {
        if self.fires() {
            LauncherView { stage: Stage::CancellationRequested, ..self }
        } else {
            self
        }
    }

    /// The state after a task finished.
    pub open spec fn completed_one(self) -> LauncherView {
        if self.completed < self.registered {
            let completed = self.completed + 1;
            LauncherView {
                completed,
                stage: if self.stage == Stage::Draining && completed == self.registered {
                    Stage::Stopped
                } else {
                    self.stage
                },
                ..self
            }
        } else {
            self
        }
    }

    /// The state after the caller asked whether it may leave: once
    /// cancellation was requested the launcher drains, and it has stopped
    /// when no task is outstanding.
    pub open spec fn stopping(self) -> LauncherView {
        match self.stage {
            Stage::CancellationRequested => LauncherView {
                stage: if self.completed == self.registered {
                    Stage::Stopped
                } else {
                    Stage::Draining
                },
                ..self
            },
            _ => self,
        }
    }

    /// The state after one report.
    pub open spec fn next(self, report: Report) -> LauncherView {
        match report {
            Report::Spawn => self.spawned(),
            Report::Signal(signal) => self.signalled(),
            Report::Completed => self.completed_one(),
            Report::Stop => self.stopping(),
        }
    }

    /// The state after the reports `reports`, made in order.
    pub open spec fn after(self, reports: Seq<Report>) -> LauncherView
        decreases reports.len(),
    {
        if reports.len() == 0 {
            self
        } else {
            self.after(reports.drop_last()).next(reports.last())
        }
    }

    /// How often the cancellation is fired over the reports `reports`.
    pub open spec fn firings(self, reports: Seq<Report>) -> nat
        decreases reports.len(),
    {
        if reports.len() == 0 {
            0
        } else {
            let before = self.after(reports.drop_last());
            self.firings(reports.drop_last()) + if reports.last() is Signal && before.fires() {
                1nat
            } else {
                0nat
            }
        }
    }
}

/// Turns termination signals into one cancellation and tracks the tasks
/// that have to finish before the process leaves.
#[derive(Debug, PartialEq, Eq)]
pub struct Launcher {
    stage: Stage,
    registered: usize,
    completed: usize,
}

impl View for Launcher {
    type V = LauncherView;

    closed spec fn view(&self) -> LauncherView {
        LauncherView {
            stage: self.stage,
            registered: self.registered as nat,
            completed: self.completed as nat,
        }
    }
}

impl Launcher {
    /// A launcher that is running with no task registered.
    pub fn new() -> (launcher: Launcher)
        ensures
            launcher@ == (LauncherView { stage: Stage::Running, registered: 0, completed: 0 }),
            launcher@.wf(),
    {
        Launcher { stage: Stage::Running, registered: 0, completed: 0 }
    }

    /// Where the shutdown stands.
    pub fn stage(&self) -> (stage: Stage)
        ensures
            stage == self@.stage,
    {
        self.stage
    }

    /// Tasks that were registered and have not finished.
    pub fn outstanding(&self) -> (tasks: usize)
        requires
            self@.wf(),
        ensures
            tasks == self@.registered - self@.completed,
    {
        self.registered - self.completed
    }

    /// Registers a task that is about to be started. Answers whether the
    /// task may start: it may while the launcher is running, and not once a
    /// signal has arrived.
    pub fn spawn(&mut self) -> (accepted: bool)
        requires
            old(self)@.wf(),
        ensures
            accepted == old(self)@.accepts(),
            final(self)@ == old(self)@.spawned(),
            final(self)@.wf(),
    {
        match self.stage {
            Stage::Running => {
                if self.registered < usize::MAX {
                    self.registered = self.registered + 1;
                    true
                } else {
                    false
                }
            },
            _ => false,
        }
    }

    /// Takes in a termination signal. Answers whether the caller is to fire
    /// the cancellation: it is for the first signal, of either kind, and for
    /// no later one.
    pub fn listen_signals(&mut self, signal: Signal) -> (fire: bool)
        requires
            old(self)@.wf(),
        ensures
            fire == old(self)@.fires(),
            final(self)@ == old(self)@.signalled(),
            final(self)@.wf(),
    {
        match self.stage {
            Stage::Running => {
                self.stage = Stage::CancellationRequested;
                true
            },
            _ => false,
        }
    }

    /// Takes in that one registered task has finished.
    pub fn complete(&mut self)
        requires
            old(self)@.wf(),
        ensures
            final(self)@ == old(self)@.completed_one(),
            final(self)@.wf(),
    {
        if self.completed < self.registered {
            self.completed = self.completed + 1;
            if self.completed == self.registered {
                match self.stage {
                    Stage::Draining => {
                        self.stage = Stage::Stopped;
                    },
                    _ => {},
                }
            }
        }
    }

    /// Asks whether the caller may leave. It may once cancellation was
    /// requested and every registered task has finished; until then the
    /// caller waits for the next task to finish and asks again.
    pub fn stop(&mut self) -> (stopped: bool)
        requires
            old(self)@.wf(),
        ensures
            final(self)@ == old(self)@.stopping(),
            stopped == (final(self)@.stage == Stage::Stopped),
            final(self)@.wf(),
    {
        match self.stage {
            Stage::CancellationRequested => {
                if self.completed == self.registered {
                    self.stage = Stage::Stopped;
                    true
                } else {
                    self.stage = Stage::Draining;
                    false
                }
            },
            Stage::Stopped => true,
            _ => false,
        }
    }
}

/// The rank of a stage in the order in which the stages are passed.
pub open spec fn rank(stage: Stage) -> nat {
    match stage {
        Stage::Running => 0,
        Stage::CancellationRequested => 1,
        Stage::Draining => 2,
        Stage::Stopped => 3,
    }
}

/// A well-formed launcher stays well formed over any run of reports, its
/// stage never goes back, and its counts never go down.
pub proof fn law_stages_only_advance(launcher: LauncherView, reports: Seq<Report>)
    requires
        launcher.wf(),
    ensures
        launcher.after(reports).wf(),
        rank(launcher.stage) <= rank(launcher.after(reports).stage),
        launcher.registered <= launcher.after(reports).registered,
        launcher.completed <= launcher.after(reports).completed,
    decreases reports.len(),
{
    if reports.len() > 0 {
        law_stages_only_advance(launcher, reports.drop_last());
    }
}

/// Over any run of reports the cancellation is fired at most once: by the
/// first signal that arrives while the launcher is running, and by no
/// other. A launcher that has left the running stage never fires.
pub proof fn law_cancellation_fires_once(launcher: LauncherView, reports: Seq<Report>)
    requires
        launcher.wf(),
    ensures
        launcher.firings(reports) <= 1,
        launcher.stage != Stage::Running ==> launcher.firings(reports) == 0,
        launcher.firings(reports) == 1 ==> launcher.after(reports).stage != Stage::Running,
        launcher.stage == Stage::Running && (exists|i: int|
            0 <= i < reports.len() && reports[i] is Signal) ==> launcher.firings(reports) == 1,
    decreases reports.len(),
{
    if reports.len() > 0 {
        let earlier = reports.drop_last();
        law_cancellation_fires_once(launcher, earlier);
        law_stages_only_advance(launcher, earlier);
        if launcher.stage == Stage::Running && exists|i: int|
            0 <= i < reports.len() && reports[i] is Signal {
            let i = choose|i: int| 0 <= i < reports.len() && reports[i] is Signal;
            if i < reports.len() - 1 {
                assert(earlier[i] is Signal);
            } else {
                lemma_running_until_signalled(launcher, earlier);
            }
        }
    }
}

/// A launcher that is running stays running until a signal arrives.
proof fn lemma_running_until_signalled(launcher: LauncherView, reports: Seq<Report>)
    requires
        launcher.stage == Stage::Running,
    ensures
        (forall|i: int| 0 <= i < reports.len() ==> !(reports[i] is Signal)) ==> launcher.after(
            reports,
        ).stage == Stage::Running,
        launcher.firings(reports) == 0 ==> launcher.after(reports).stage == Stage::Running,
    decreases reports.len(),
{
    if reports.len() > 0 {
        lemma_running_until_signalled(launcher, reports.drop_last());
        assert forall|i: int| 0 <= i < reports.drop_last().len() implies reports.drop_last()[i]
            == reports[i] by {}
    }
}

/// Signalling twice has the effect of signalling once.
pub proof fn law_signal_is_idempotent(launcher: LauncherView)
    ensures
        launcher.signalled().signalled() == launcher.signalled(),
        !launcher.signalled().fires(),
{
}

/// After the first signal no task is taken on.
pub proof fn law_no_registration_after_signal(launcher: LauncherView, reports: Seq<Report>)
    requires
        launcher.wf(),
    ensures
        !launcher.signalled().after(reports).accepts(),
        launcher.signalled().after(reports).registered == launcher.registered,
    decreases reports.len(),
{
    if reports.len() > 0 {
        law_no_registration_after_signal(launcher, reports.drop_last());
    }
}

/// The launcher reports that it has stopped only when every registered
/// task has finished, and once it has stopped it stays so.
pub proof fn law_stopped_means_drained(launcher: LauncherView, report: Report)
    requires
        launcher.wf(),
        launcher.stage == Stage::Stopped,
    ensures
        launcher.completed == launcher.registered,
        launcher.next(report) == launcher,
{
}

} // verus!
