//! The worker: a handle for the controlling thread and a loop for the thread
//! that runs the tasks, joined by three channels.
//!
//! [`Worker`] submits tasks to a queue of [`MAX_QUEUED_TASKS`] places, raises
//! the cancellation signal and asks for shutdown. [`WorkerLoop`] is what the
//! worker's thread runs: each [`WorkerLoop::step`] waits for what comes next
//! and hands back the one line to log for it, until the loop has stopped.
//!
//! What a step finds on a channel is up to the other thread. The decisions
//! taken on it are [`react`], a function from the loop's [`Phase`] and the
//! [`Event`] found to the next phase and the line.

use crossbeam::channel::{Receiver, Sender};
use vstd::prelude::*;

use crate::channel::{
    bounded, clone_receiver, is_empty, recv_either, recv_error_string, recv_error_text, try_recv,
    try_send, Selected,
};
use crate::task::{after_wait, progress_line, Advance, Execution, Progress, Running, Task, TaskError};

verus! {

/// The number of tasks that can wait in the queue. A task submitted to a full
/// queue is dropped.
pub const MAX_QUEUED_TASKS: usize = 3;

/// Where the worker's loop stands.
pub enum Phase {
    /// Waiting for a task or for the shutdown signal.
    Idle,
    /// Between two steps of a task.
    Executing(Running),
    /// Over: the loop takes no more tasks.
    Stopped,
}

/// What one step of the loop found on its channels.
pub enum Event {
    /// The shutdown signal came, or its channel lost its sender.
    Shutdown,
    /// The task `id` came out of the queue; `shutdown_pending` tells whether a
    /// shutdown signal was waiting by then.
    Delivered { id: nat, shutdown_pending: bool },
    /// The queue failed, with the error in words.
    Closed { reason: Seq<char> },
    /// The wait after a step of the running task ended.
    Waited { signalled: bool },
}

/// The line logged when the loop stops on a shutdown signal.
pub open spec fn stopping_line() -> Seq<char> {
    "worker thread is stopping"@
}

/// The line logged when the queue fails.
pub open spec fn channel_error_line(reason: Seq<char>) -> Seq<char> {
    "Channel error: "@ + reason
}

/// The line logged when a task is over.
pub open spec fn outcome_line(result: Result<(), TaskError>) -> Seq<char> {
    match result {
        Ok(()) => "Task done"@,
        Err(TaskError::Interrupted) => "Task interrupted"@,
        Err(error) => "Task error: "@ + error.text(),
    }
}

/// The line logged for a submission.
pub open spec fn submit_line(accepted: bool) -> Seq<char> {
    if accepted {
        "Queued task"@
    } else {
        "Too many tasks in the queue, dropping one"@
    }
}

/// The line logged when the worker's thread has been joined.
pub open spec fn join_line(joined: bool) -> Seq<char> {
    if joined {
        "Worker gracefully stopped"@
    } else {
        "child_thread.join() failed"@
    }
}

/// Whether `event` is one that a loop in `phase` can find: an idle loop waits
/// for a task or a shutdown, a loop with a task under way waits for the
/// cancellation signal, a stopped loop waits for nothing.
pub open spec fn fits(phase: Phase, event: Event) -> bool {
    match (phase, event) {
        (Phase::Idle, Event::Shutdown) => true,
        (Phase::Idle, Event::Delivered { .. }) => true,
        (Phase::Idle, Event::Closed { reason }) => reason == recv_error_text(),
        (Phase::Executing(_), Event::Waited { .. }) => true,
        _ => false,
    }
}

/// The phase that follows `phase` on `event`, and the line logged for it.
///
/// Shutdown wins over a task that came out of the queue while a shutdown
/// signal was waiting: the task is dropped and the loop stops. A failed queue
/// stops the loop too. A task that is over leaves the loop idle.
pub open spec fn react(phase: Phase, event: Event) -> (Phase, Seq<char>) {
    match (phase, event) {
        (Phase::Idle, Event::Shutdown) => (Phase::Stopped, stopping_line()),
        (Phase::Idle, Event::Delivered { id, shutdown_pending }) => if shutdown_pending {
            (Phase::Stopped, stopping_line())
        } else {
            (Phase::Executing(Running { id, reported: 1 }), progress_line(id, 1))
        },
        (Phase::Idle, Event::Closed { reason }) => (Phase::Stopped, channel_error_line(reason)),
        (Phase::Executing(run), Event::Waited { signalled }) => match after_wait(run, signalled) {
            Advance::Step { line, run } => (Phase::Executing(run), line),
            Advance::Finished { result } => (Phase::Idle, outcome_line(result)),
        },
        _ => (phase, Seq::empty()),
    }
}

/// What the idle loop's wait brought.
pub enum Arrival {
    /// The shutdown signal.
    Shutdown,
    /// A task out of the queue, and whether a shutdown signal was waiting when
    /// it came.
    Delivered { task: Task, shutdown_pending: bool },
    /// An error of the queue, in words.
    Closed { reason: String },
}

impl View for Arrival {
    type V = Event;

    open spec fn view(&self) -> Event {
        match self {
            Arrival::Shutdown => Event::Shutdown,
            Arrival::Delivered { task, shutdown_pending } => Event::Delivered {
                id: task.id() as nat,
                shutdown_pending: *shutdown_pending,
            },
            Arrival::Closed { reason } => Event::Closed { reason: reason@ },
        }
    }
}

/// What the idle loop does with an arrival.
pub enum Admission {
    /// Execute the task.
    Run(Task),
    /// Stop the loop, logging the line.
    Stop(String),
}

/// Decides on what the idle loop's wait brought: a task is executed unless a
/// shutdown signal was waiting when it came; everything else stops the loop.
pub fn on_arrival(arrival: Arrival) -> (admission: Admission)
    ensures
        match admission {
            Admission::Run(task) => arrival == (Arrival::Delivered { task, shutdown_pending: false }),
            Admission::Stop(line) => react(Phase::Idle, arrival@) == (Phase::Stopped, line@),
        },
{
    match arrival {
        Arrival::Shutdown => Admission::Stop(String::from_str("worker thread is stopping")),
        Arrival::Delivered { task, shutdown_pending } => {
            if shutdown_pending {
                Admission::Stop(String::from_str("worker thread is stopping"))
            } else {
                Admission::Run(task)
            }
        },
        Arrival::Closed { reason } => {
            let mut line = String::from_str("Channel error: ");
            line.append(reason.as_str());
            Admission::Stop(line)
        },
    }
}

/// Writes the line to log when a task is over.
pub fn outcome_notice(result: Result<(), TaskError>) -> (line: String)
    ensures
        line@ == outcome_line(result),
{
    match result {
        Ok(()) => String::from_str("Task done"),
        Err(TaskError::Interrupted) => String::from_str("Task interrupted"),
        Err(error) => {
            let mut line = String::from_str("Task error: ");
            line.append(error.message().as_str());
            line
        },
    }
}

/// Writes the line to log for a submission that the queue took (`accepted`) or
/// refused.
pub fn submit_notice(accepted: bool) -> (line: String)
    ensures
        line@ == submit_line(accepted),
{
    if accepted {
        String::from_str("Queued task")
    } else {
        String::from_str("Too many tasks in the queue, dropping one")
    }
}

/// Writes the line to log when joining the worker's thread has succeeded
/// (`joined`) or failed.
pub fn join_notice(joined: bool) -> (line: String)
    ensures
        line@ == join_line(joined),
{
    if joined {
        String::from_str("Worker gracefully stopped")
    } else {
        String::from_str("child_thread.join() failed")
    }
}

/// The loop that the worker's thread runs, with the receiving ends of the
/// three channels.
pub struct WorkerLoop {
    r_die: Receiver<()>,
    r_task: Receiver<Task>,
    r_cancel: Receiver<()>,
    current: Option<Execution>,
    stopped: bool,
}

impl View for WorkerLoop {
    type V = Phase;

    closed spec fn view(&self) -> Phase {
        if self.stopped {
            Phase::Stopped
        } else {
            match self.current {
                Some(execution) => Phase::Executing(execution@),
                None => Phase::Idle,
            }
        }
    }
}

impl WorkerLoop {
    /// The channel ends that the loop receives on: for the shutdown signal,
    /// for the tasks and for the cancellation signal.
    pub closed spec fn ends(&self) -> (Receiver<()>, Receiver<Task>, Receiver<()>) {
        (self.r_die, self.r_task, self.r_cancel)
    }

    /// An idle loop on the receiving ends of the shutdown channel, the task
    /// queue and the cancellation channel.
    pub fn new(r_die: Receiver<()>, r_task: Receiver<Task>, r_cancel: Receiver<()>) -> (worker_loop:
        WorkerLoop)
        ensures
            worker_loop@ is Idle,
            worker_loop.ends() == (r_die, r_task, r_cancel),
    {
        WorkerLoop { r_die, r_task, r_cancel, current: None, stopped: false }
    }

    /// Waits for the shutdown signal and the next task at once and takes
    /// whichever comes first. For a task it then looks whether a shutdown
    /// signal has come meanwhile. What comes is up to the other thread: the
    /// result is what [`arrival_of`] makes of it, an event for an idle loop.
    fn await_arrival(&self) -> (arrival: Arrival)
        ensures
            fits(Phase::Idle, arrival@),
    {
        let got = recv_either(&self.r_die, &self.r_task);
        let shutdown_pending = match &got {
            Selected::Second(Ok(_)) => !is_empty(&self.r_die),
            _ => false,
        };
        arrival_of(got, shutdown_pending)
    }

    /// One step of the loop. A stopped loop does nothing and returns `None`.
    /// Otherwise the step waits for the next event of its phase, moves on as
    /// [`react`] says, and returns the line to log.
    ///
    /// An idle loop waits for a task or the shutdown signal; before it starts
    /// a task it throws away a cancellation signal left over from earlier. A
    /// loop with a task under way waits for the cancellation signal, for as
    /// long as the task allows. Which event a step finds is up to the other
    /// thread, so the contract holds for each that fits the phase.
    pub fn step(&mut self) -> (line: Option<String>)
        ensures
            final(self).ends() == old(self).ends(),
            old(self)@ is Stopped ==> line is None && final(self)@ is Stopped,
            !(old(self)@ is Stopped) ==> line is Some && exists|event: Event|
                fits(old(self)@, event) && react(old(self)@, event) == (
                    final(self)@,
                    line->0@,
                ),
    {
        if self.stopped {
            return None;
        }
        let ghost before = self@;
        match self.current.take() {
            Some(execution) => {
                let ghost run = execution@;
                match execution.resume() {
                    Progress::Step(line, next) => {
                        self.current = Some(next);
                        proof {
                            let signalled = choose|signalled: bool|
                                after_wait(run, signalled) == (Advance::Step {
                                    line: line@,
                                    run: next@,
                                });
                            let event = Event::Waited { signalled };
                            assert(fits(before, event) && react(before, event) == (self@, line@));
                        }
                        Some(line)
                    },
                    Progress::Finished(result) => {
                        let line = outcome_notice(result);
                        proof {
                            let signalled = choose|signalled: bool|
                                after_wait(run, signalled) == (Advance::Finished { result });
                            let event = Event::Waited { signalled };
                            assert(fits(before, event) && react(before, event) == (self@, line@));
                        }
                        Some(line)
                    },
                }
            },
            None => {
                let arrival = self.await_arrival();
                let ghost event = arrival@;
                match on_arrival(arrival) {
                    Admission::Stop(line) => {
                        self.stopped = true;
                        assert(fits(before, event) && react(before, event) == (self@, line@));
                        Some(line)
                    },
                    Admission::Run(task) => {
                        let _ = try_recv(&self.r_cancel);
                        let (line, execution) = task.execute(clone_receiver(&self.r_cancel));
                        self.current = Some(execution);
                        assert(fits(before, event) && react(before, event) == (self@, line@));
                        Some(line)
                    },
                }
            },
        }
    }
}

/// The arrival that stands for what the idle loop's wait received.
///
/// `got` is what came, and from where: anything from the shutdown channel,
/// first of the two, is a shutdown, be it the signal or the loss of the sender;
/// from the queue a task is a delivery and an error is the queue's failure, in
/// the words of the error. `shutdown_pending` tells whether a shutdown signal
/// was waiting after the receive, and is written into a delivery only.
pub fn arrival_of(got: Selected<(), Task>, shutdown_pending: bool) -> (arrival: Arrival)
    ensures
        match got {
            Selected::First(_) => arrival == Arrival::Shutdown,
            Selected::Second(Ok(task)) => arrival == (Arrival::Delivered { task, shutdown_pending }),
            Selected::Second(Err(_)) => arrival matches Arrival::Closed { reason } && reason@
                == recv_error_text(),
        },
{
    match got {
        Selected::First(_) => Arrival::Shutdown,
        Selected::Second(Ok(task)) => Arrival::Delivered { task, shutdown_pending },
        Selected::Second(Err(error)) => Arrival::Closed { reason: recv_error_string(&error) },
    }
}

/// The controlling thread's handle on the worker, with the sending ends of the
/// three channels.
pub struct Worker {
    s_die: Option<Sender<()>>,
    s_cancel: Sender<()>,
    s_task: Sender<Task>,
}

impl Worker {
    /// Whether shutdown has not been asked for yet.
    pub closed spec fn is_live(&self) -> bool {
        self.s_die is Some
    }

    /// The channel ends that the worker sends on at any time: for the
    /// cancellation signal and for the tasks.
    pub closed spec fn ends(&self) -> (Sender<()>, Sender<Task>) {
        (self.s_cancel, self.s_task)
    }

    /// A worker and its loop, idle, joined by a queue of [`MAX_QUEUED_TASKS`]
    /// places and by one place each for the cancellation and the shutdown
    /// signal. The loop is for a thread of its own.
    pub fn new() -> (pair: (Worker, WorkerLoop))
        ensures
            pair.0.is_live(),
            pair.1@ is Idle,
    {
        let (s_task, r_task) = bounded::<Task>(MAX_QUEUED_TASKS);
        let (s_die, r_die) = bounded::<()>(1);
        let (s_cancel, r_cancel) = bounded::<()>(1);
        (Worker { s_die: Some(s_die), s_cancel, s_task }, WorkerLoop::new(r_die, r_task, r_cancel))
    }

    /// Submits `task` without blocking, and hands back the line to log: the
    /// queue took the task, or it was full and the task is dropped.
    pub fn execute(&self, task: Task) -> (line: String)
        ensures
            line@ == submit_line(true) || line@ == submit_line(false),
    {
        submit_notice(try_send(&self.s_task, task))
    }

    /// Asks the task under way to stop, without blocking. With a signal
    /// already waiting this does nothing.
    pub fn cancel_current_task(&self) {
        let _ = try_send(&self.s_cancel, ());
    }

    /// Asks the worker to stop: raises the cancellation signal for the task
    /// under way, and on the first call sends the shutdown signal. The result
    /// tells whether this was the first call, after which the caller joins the
    /// worker's thread. No call blocks, and no later call sends a shutdown
    /// signal again.
    pub fn die(&mut self) -> (first: bool)
        ensures
            first == old(self).is_live(),
            !final(self).is_live(),
            final(self).ends() == old(self).ends(),
    {
        self.cancel_current_task();
        match self.s_die.take() {
            Some(sender) => {
                let _ = try_send(&sender, ());
                true
            },
            None => false,
        }
    }
}

} // verus!
