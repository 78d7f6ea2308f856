//! The task that builds and runs an application. The framework does the
//! work; what is decided here is which piece of work comes next.

use vstd::prelude::*;

verus! {

/// How the caller wants an application built.
#[derive(Clone, Copy, Debug, PartialEq, Eq, Structural)]
pub enum Protocol {
    /// Build the application and serve at once; the caller gets no handle.
    RunToCompletion,
    /// Build the application and hand it to the caller, who runs it later.
    BuildThenCallback,
}

/// Where a task stands.
#[derive(Clone, Copy, Debug, PartialEq, Eq, Structural)]
pub enum Phase {
    /// The framework is building the application.
    Building,
    /// The application is serving.
    Running,
    /// The task is over.
    Done,
}

/// What the framework reports to a task.
#[derive(Clone, Copy, Debug, PartialEq, Eq, Structural)]
pub enum Event {
    /// The application was built.
    Built,
    /// The application stopped serving.
    RunEnded,
    /// Building or serving failed.
    Failed,
}

/// What a task asks for next.
#[derive(Clone, Copy, Debug, PartialEq, Eq, Structural)]
pub enum Action {
    /// Serve the application that was built.
    Run,
    /// Hand the application that was built to the caller.
    Notify,
    /// Nothing more; a failure is told to nobody.
    Stop,
}

/// A detached task.
#[derive(Clone, Copy, Debug, PartialEq, Eq, Structural)]
pub struct Task {
    pub protocol: Protocol,
    pub phase: Phase,
}

impl Task {
    /// True of the events that can reach a task in its phase.
    pub open spec fn expects(self, event: Event) -> bool {
        match self.phase {
            Phase::Building => event == Event::Built || event == Event::Failed,
            Phase::Running => event == Event::RunEnded || event == Event::Failed,
            Phase::Done => false,
        }
    }

    /// The task after an event, and what it asks for.
    pub open spec fn next(self, event: Event) -> (Task, Action) {
        if self.phase == Phase::Building && event == Event::Built {
            match self.protocol {
                Protocol::RunToCompletion => (Task { phase: Phase::Running, ..self }, Action::Run),
                Protocol::BuildThenCallback => (
                    Task { phase: Phase::Done, ..self },
                    Action::Notify,
                ),
            }
        } else {
            (Task { phase: Phase::Done, ..self }, Action::Stop)
        }
    }

    /// Whether the event can reach the task in its phase.
    pub fn can_take(&self, event: Event) -> (expected: bool)
        ensures
            expected == self.expects(event),
    {
        match self.phase {
            Phase::Building => event == Event::Built || event == Event::Failed,
            Phase::Running => event == Event::RunEnded || event == Event::Failed,
            Phase::Done => false,
        }
    }

    /// Takes an event: the task moves on, and says what is to be done next.
    pub fn step(&mut self, event: Event) -> (action: Action)
        requires
            old(self).expects(event),
        ensures
            (*final(self), action) == old(self).next(event),
    {
        if self.phase == Phase::Building && event == Event::Built {
            match self.protocol {
                Protocol::RunToCompletion => {
                    self.phase = Phase::Running;
                    Action::Run
                },
                Protocol::BuildThenCallback => {
                    self.phase = Phase::Done;
                    Action::Notify
                },
            }
        } else {
            self.phase = Phase::Done;
            Action::Stop
        }
    }

    /// Takes an event if the task expects it; otherwise nothing changes.
    pub fn try_step(&mut self, event: Event) -> (action: Option<Action>)
        ensures
            action is Some <==> old(self).expects(event),
            action matches Some(a) ==> (*final(self), a) == old(self).next(event),
            action is None ==> *final(self) == *old(self),
    {
        if self.can_take(event) {
            Some(self.step(event))
        } else {
            None
        }
    }

    /// The task that serves an application which was handed to the caller.
    pub fn run() -> (task: Task)
        ensures
            task == (Task { protocol: Protocol::BuildThenCallback, phase: Phase::Running }),
    {
        Task { protocol: Protocol::BuildThenCallback, phase: Phase::Running }
    }
}

/// A failure ends a task in any phase and asks for nothing more; the
/// application is run or handed over only when it was built, and which of
/// the two is the caller's choice.
pub proof fn law_task_outcomes(task: Task, event: Event)
    requires
        task.expects(event),
    ensures
        event == Event::Failed ==> task.next(event) == (
            Task { phase: Phase::Done, ..task },
            Action::Stop,
        ),
        task.next(event).1 == Action::Run <==> event == Event::Built && task.protocol
            == Protocol::RunToCompletion,
        task.next(event).1 == Action::Notify <==> event == Event::Built && task.protocol
            == Protocol::BuildThenCallback,
        task.next(event).0.protocol == task.protocol,
{
}

/// A task is over after two events at most, and once over it expects none.
pub proof fn law_task_ends(task: Task, first: Event, second: Event)
    requires
        task.expects(first),
        task.next(first).0.expects(second),
    ensures
        task.next(first).0.next(second).0.phase == Phase::Done,
        forall|event: Event| !(Task { phase: Phase::Done, ..task }).expects(event),
{
}

} // verus!
