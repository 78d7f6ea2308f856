use teo_c::task::{Action, Event, Phase, Protocol, Task};

#[test]
fn run_to_completion_builds_then_runs() {
    let mut task = Task { protocol: Protocol::RunToCompletion, phase: Phase::Building };
    assert_eq!(task.step(Event::Built), Action::Run);
    assert_eq!(task.phase, Phase::Running);
    assert_eq!(task.step(Event::RunEnded), Action::Stop);
    assert_eq!(task.phase, Phase::Done);
    assert_eq!(task.protocol, Protocol::RunToCompletion);
}

#[test]
fn build_then_callback_hands_the_application_over() {
    let mut task = Task { protocol: Protocol::BuildThenCallback, phase: Phase::Building };
    assert_eq!(task.step(Event::Built), Action::Notify);
    assert_eq!(task.phase, Phase::Done);
    let mut run = Task::run();
    assert_eq!(run.phase, Phase::Running);
    assert_eq!(run.step(Event::RunEnded), Action::Stop);
    assert_eq!(run.phase, Phase::Done);
}

#[test]
fn a_failure_ends_the_task_only() {
    for protocol in [Protocol::RunToCompletion, Protocol::BuildThenCallback] {
        let mut task = Task { protocol, phase: Phase::Building };
        assert_eq!(task.step(Event::Failed), Action::Stop);
        assert_eq!(task.phase, Phase::Done);
        let mut task = Task { protocol, phase: Phase::Running };
        assert_eq!(task.step(Event::Failed), Action::Stop);
        assert_eq!(task.phase, Phase::Done);
    }
}

#[test]
fn unexpected_events_change_nothing() {
    let mut task = Task { protocol: Protocol::RunToCompletion, phase: Phase::Building };
    assert!(!task.can_take(Event::RunEnded));
    assert_eq!(task.try_step(Event::RunEnded), None);
    assert_eq!(task.phase, Phase::Building);
    let mut task = Task { protocol: Protocol::RunToCompletion, phase: Phase::Running };
    assert!(!task.can_take(Event::Built));
    assert_eq!(task.try_step(Event::Built), None);
    assert_eq!(task.phase, Phase::Running);
    let mut task = Task { protocol: Protocol::RunToCompletion, phase: Phase::Done };
    for event in [Event::Built, Event::RunEnded, Event::Failed] {
        assert!(!task.can_take(event));
        assert_eq!(task.try_step(event), None);
        assert_eq!(task.phase, Phase::Done);
    }
}

#[test]
fn expected_events_are_taken() {
    let mut task = Task { protocol: Protocol::RunToCompletion, phase: Phase::Building };
    assert!(task.can_take(Event::Built));
    assert!(task.can_take(Event::Failed));
    assert_eq!(task.try_step(Event::Built), Some(Action::Run));
    assert!(task.can_take(Event::RunEnded));
    assert!(task.can_take(Event::Failed));
    assert_eq!(task.try_step(Event::RunEnded), Some(Action::Stop));
}

#[test]
fn two_tasks_do_not_touch_each_other() {
    let mut first = Task { protocol: Protocol::RunToCompletion, phase: Phase::Building };
    let mut second = Task { protocol: Protocol::BuildThenCallback, phase: Phase::Building };
    assert_eq!(first.step(Event::Built), Action::Run);
    assert_eq!(second.phase, Phase::Building);
    assert_eq!(second.step(Event::Failed), Action::Stop);
    assert_eq!(first.phase, Phase::Running);
    assert_eq!(first.step(Event::RunEnded), Action::Stop);
    assert_eq!((first.phase, second.phase), (Phase::Done, Phase::Done));
}
