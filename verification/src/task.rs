//! A task and its execution, step by step.
//!
//! A task takes [`TASK_STEPS`] steps. Each step is reported with one line, and
//! after each the task waits up to [`STEP_WAIT_SECS`] seconds for a
//! cancellation signal: a signal ends the task at once, a quiet wait lets it go
//! on. A task can be stopped between two steps only, never within one.
//!
//! The caller writes the lines, so an execution is handed out one step at a
//! time: [`Task::execute`] takes the first step, [`Execution::resume`] waits and
//! takes the next.

use crossbeam::channel::Receiver;
use vstd::prelude::*;

use crate::channel::recv_timeout;
use crate::text::{decimal, decimal_string};

verus! {

/// The number of steps a task takes.
pub const TASK_STEPS: usize = 4;

/// The seconds a task waits for a cancellation signal after each step.
pub const STEP_WAIT_SECS: u64 = 1;

/// A unit of work, known by the number its submitter gave it.
#[derive(Debug)]
pub struct Task {
    id: usize,
}

/// Why a task ended before its last step.
#[derive(Debug, Clone, Copy, PartialEq, Eq, Structural)]
pub enum TaskError {
    /// A cancellation signal arrived between two steps.
    Interrupted,
    /// The task failed for a reason of its own. No step of a task fails so far.
    Other,
}

/// A task under way, as contracts see it: the task's number and how many of
/// its steps are done and reported.
pub struct Running {
    pub id: nat,
    pub reported: nat,
}

/// What the wait after a step leads to, as contracts see it.
pub enum Advance {
    /// The next step is done: its line, and the task one step further.
    Step { line: Seq<char>, run: Running },
    /// The task is over.
    Finished { result: Result<(), TaskError> },
}

/// The line that reports step `step` of task `id`.
pub open spec fn progress_line(id: nat, step: nat) -> Seq<char> {
    "Task "@ + decimal(id) + ": "@ + decimal(step) + "/"@ + decimal(TASK_STEPS as nat)
}

/// Where a task under way goes when the wait after its last reported step
/// ends: a signal interrupts it, whatever the step; without one it takes the
/// next step, or is done when none is left.
pub open spec fn after_wait(run: Running, signalled: bool) -> Advance {
    if signalled {
        Advance::Finished { result: Err(TaskError::Interrupted) }
    } else if run.reported >= TASK_STEPS {
        Advance::Finished { result: Ok(()) }
    } else {
        Advance::Step {
            line: progress_line(run.id, run.reported + 1),
            run: Running { id: run.id, reported: run.reported + 1 },
        }
    }
}

impl TaskError {
    /// The error in words.
    pub open spec fn text(self) -> Seq<char> {
        match self {
            TaskError::Interrupted => "task interrupted"@,
            TaskError::Other => "something went wrong"@,
        }
    }

    /// The error in words.
    pub fn message(&self) -> (s: String)
        ensures
            s@ == self.text(),
    {
        match self {
            TaskError::Interrupted => String::from_str("task interrupted"),
            TaskError::Other => String::from_str("something went wrong"),
        }
    }
}

/// Writes the line that reports step `step` of task `id`.
fn progress_string(id: usize, step: usize) -> (line: String)
    ensures
        line@ == progress_line(id as nat, step as nat),
{
    let mut line = String::from_str("Task ");
    line.append(decimal_string(id).as_str());
    line.append(": ");
    line.append(decimal_string(step).as_str());
    line.append("/");
    line.append(decimal_string(TASK_STEPS).as_str());
    line
}

impl Task {
    /// The task with the number `id`.
    pub fn new(id: usize) -> (task: Task)
        ensures
            task.id() == id,
    {
        Task { id }
    }

    pub closed spec fn spec_id(&self) -> usize {
        self.id
    }

    /// The task's number.
    #[verifier::when_used_as_spec(spec_id)]
    pub fn id(&self) -> (id: usize)
        ensures
            id == self.id(),
    {
        self.id
    }

    /// Starts the task: takes its first step and hands back the line that
    /// reports it, with the execution that [`Execution::resume`] carries on.
    /// Cancellation signals are awaited on `interrupt`.
    pub fn execute(self, interrupt: Receiver<()>) -> (started: (String, Execution))
        ensures
            started.0@ == progress_line(self.id() as nat, 1),
            started.1@ == (Running { id: self.id() as nat, reported: 1 }),
            started.1.interrupt() == interrupt,
    {
        let line = progress_string(self.id, 1);
        (line, Execution { task: self, interrupt, reported: 1 })
    }
}

/// A task between two of its steps: at least one step is done and reported,
/// and the wait that follows it has not ended yet.
pub struct Execution {
    task: Task,
    interrupt: Receiver<()>,
    reported: usize,
}

impl View for Execution {
    type V = Running;

    closed spec fn view(&self) -> Running {
        Running { id: self.task.id as nat, reported: self.reported as nat }
    }
}

/// A step of a task under way.
pub enum Progress {
    /// The next step is done: the line that reports it, and the execution to
    /// resume.
    Step(String, Execution),
    /// The task is over: done, or ended early.
    Finished(Result<(), TaskError>),
}

impl View for Progress {
    type V = Advance;

    open spec fn view(&self) -> Advance {
        match self {
            Progress::Step(line, execution) => Advance::Step { line: line@, run: execution@ },
            Progress::Finished(result) => Advance::Finished { result: *result },
        }
    }
}

impl Execution {
    #[verifier::type_invariant]
    spec fn in_range(self) -> bool {
        1 <= self.reported <= TASK_STEPS
    }

    /// The channel end on which the execution awaits cancellation signals.
    pub closed spec fn interrupt(&self) -> Receiver<()> {
        self.interrupt
    }

    /// Carries on after a wait that ended with a signal (`signalled`) or ran
    /// out: see [`after_wait`].
    pub fn after_wait(self, signalled: bool) -> (progress: Progress)
        ensures
            progress@ == after_wait(self@, signalled),
            progress matches Progress::Step(_, next) ==> next.interrupt() == self.interrupt(),
    {
        proof {
            use_type_invariant(&self);
        }
        if signalled {
            Progress::Finished(Err(TaskError::Interrupted))
        } else if self.reported >= TASK_STEPS {
            Progress::Finished(Ok(()))
        } else {
            let step: usize = self.reported + 1;
            let line = progress_string(self.task.id, step);
            Progress::Step(line, Execution { task: self.task, interrupt: self.interrupt, reported: step })
        }
    }

    /// Waits up to [`STEP_WAIT_SECS`] seconds for a cancellation signal and
    /// carries on as [`Execution::after_wait`] says. Whether a signal comes is
    /// up to the other thread, so the contract holds for either.
    pub fn resume(self) -> (progress: Progress)
        ensures
            exists|signalled: bool| progress@ == after_wait(self@, signalled),
            progress matches Progress::Step(_, next) ==> next.interrupt() == self.interrupt(),
    {
        let signalled = recv_timeout(&self.interrupt, STEP_WAIT_SECS).is_some();
        self.after_wait(signalled)
    }
}

} // verus!
