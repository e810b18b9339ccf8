use std::time::{Duration, Instant};

use cancelable_worker::task::{Execution, Progress, Task, TaskError, STEP_WAIT_SECS, TASK_STEPS};

/// Runs task 5 with waits that end as told: the wait after step `signal_at` is
/// the one that finds a signal (none does for 0).
fn lines_with_signal_at(signal_at: usize) -> (Vec<String>, Result<(), TaskError>) {
    let (_sender, receiver) = crossbeam::channel::bounded::<()>(1);
    let (first, mut execution) = Task::new(5).execute(receiver);
    let mut lines = vec![first];
    let mut waits: usize = 0;
    loop {
        waits += 1;
        match execution.after_wait(waits == signal_at) {
            Progress::Step(line, next) => {
                lines.push(line);
                execution = next;
            }
            Progress::Finished(result) => return (lines, result),
        }
    }
}

fn expect_step(progress: Progress, line: &str) -> Execution {
    match progress {
        Progress::Step(found, next) => {
            assert_eq!(found, line);
            next
        }
        Progress::Finished(result) => panic!("the task is over: {:?}", result),
    }
}

fn expect_finished(progress: Progress) -> Result<(), TaskError> {
    match progress {
        Progress::Step(line, _) => panic!("the task goes on: {}", line),
        Progress::Finished(result) => result,
    }
}

#[test]
fn the_constants() {
    assert_eq!(TASK_STEPS, 4);
    assert_eq!(STEP_WAIT_SECS, 1);
}

#[test]
fn a_task_keeps_its_number() {
    assert_eq!(Task::new(0).id(), 0);
    assert_eq!(Task::new(17).id(), 17);
    assert_eq!(Task::new(usize::MAX).id(), usize::MAX);
}

#[test]
fn the_first_step_is_taken_at_once() {
    let (_sender, receiver) = crossbeam::channel::bounded::<()>(1);
    let (line, _execution) = Task::new(12).execute(receiver);
    assert_eq!(line, "Task 12: 1/4");
}

#[test]
fn a_quiet_task_reports_four_steps_and_is_done() {
    let (lines, result) = lines_with_signal_at(0);
    assert_eq!(lines, vec!["Task 5: 1/4", "Task 5: 2/4", "Task 5: 3/4", "Task 5: 4/4"]);
    assert_eq!(result, Ok(()));
}

#[test]
fn a_signal_in_the_first_wait_ends_the_task_after_one_step() {
    let (lines, result) = lines_with_signal_at(1);
    assert_eq!(lines, vec!["Task 5: 1/4"]);
    assert_eq!(result, Err(TaskError::Interrupted));
}

#[test]
fn a_signal_in_a_later_wait_ends_the_task_there() {
    let (lines, result) = lines_with_signal_at(3);
    assert_eq!(lines, vec!["Task 5: 1/4", "Task 5: 2/4", "Task 5: 3/4"]);
    assert_eq!(result, Err(TaskError::Interrupted));
}

#[test]
fn a_signal_after_the_last_step_still_interrupts() {
    let (lines, result) = lines_with_signal_at(4);
    assert_eq!(lines, vec!["Task 5: 1/4", "Task 5: 2/4", "Task 5: 3/4", "Task 5: 4/4"]);
    assert_eq!(result, Err(TaskError::Interrupted));
}

#[test]
fn resume_is_interrupted_by_a_waiting_signal() {
    let (sender, receiver) = crossbeam::channel::bounded::<()>(1);
    let (_line, execution) = Task::new(3).execute(receiver);
    sender.try_send(()).expect("the slot is free");
    let begin = Instant::now();
    assert_eq!(expect_finished(execution.resume()), Err(TaskError::Interrupted));
    assert!(begin.elapsed() < Duration::from_millis(900));
    assert!(sender.is_empty());
}

#[test]
fn resume_waits_a_second_and_goes_on() {
    let (_sender, receiver) = crossbeam::channel::bounded::<()>(1);
    let (_line, execution) = Task::new(3).execute(receiver);
    let begin = Instant::now();
    let execution = expect_step(execution.resume(), "Task 3: 2/4");
    assert!(begin.elapsed() >= Duration::from_millis(990));
    assert!(begin.elapsed() < Duration::from_millis(5000));
    assert_eq!(expect_finished(execution.after_wait(true)), Err(TaskError::Interrupted));
}

#[test]
fn resume_does_not_wait_on_a_channel_without_sender() {
    let (sender, receiver) = crossbeam::channel::bounded::<()>(1);
    drop(sender);
    let (_line, execution) = Task::new(8).execute(receiver);
    let begin = Instant::now();
    let execution = expect_step(execution.resume(), "Task 8: 2/4");
    let execution = expect_step(execution.resume(), "Task 8: 3/4");
    let execution = expect_step(execution.resume(), "Task 8: 4/4");
    assert_eq!(expect_finished(execution.resume()), Ok(()));
    assert!(begin.elapsed() < Duration::from_millis(900));
}
