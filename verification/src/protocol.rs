//! The worker as a whole: both threads and what lies between them.
//!
//! [`System`] is a model of a running worker. It holds what the channels hold
//! (the queue of tasks, a cancellation signal, a shutdown signal), where the
//! loop stands, and every line logged so far. The controlling thread moves it
//! by [`System::submit`], [`System::cancel`] and [`System::shutdown`], the
//! worker's thread by [`System::work`], which takes the event that the
//! channels hold for the loop and reacts to it as [`crate::worker::react`]
//! says. The threads' steps may follow each other in any order.
//!
//! The channels are taken to do what bounded channels do: a queue with room
//! takes a task at its end and a full one refuses it, a signal sent twice
//! waits once, and what is received is gone. On that the laws at the end of
//! this file rest. They are proved of the model; the functions of
//! [`crate::worker`] are tied to it by the decisions they share with it.
//!
//! Two things that cannot happen while the worker's handle lives are left
//! out: a queue that fails for want of a sender, and a worker's thread that
//! cannot be joined.

use vstd::prelude::*;

use crate::task::{progress_line, Running, TaskError, TASK_STEPS};
use crate::worker::{
    fits, join_line, outcome_line, react, stopping_line, submit_line, Event, Phase,
    MAX_QUEUED_TASKS,
};

verus! {

/// A worker at one moment.
pub struct System {
    /// The numbers of the tasks that wait in the queue, oldest first.
    pub queue: Seq<nat>,
    /// Whether a cancellation signal waits to be received.
    pub cancel_pending: bool,
    /// Whether a shutdown signal waits to be received.
    pub shutdown_pending: bool,
    /// Whether shutdown has not been asked for yet.
    pub live: bool,
    /// Where the loop stands.
    pub phase: Phase,
    /// The lines logged so far by either thread, oldest first.
    pub log: Seq<Seq<char>>,
    /// The numbers of the tasks that the queue has taken so far, in the order
    /// of their submission.
    pub accepted: Seq<nat>,
    /// The numbers of the tasks that the loop has started so far, in the
    /// order of their start.
    pub begun: Seq<nat>,
    /// How many of the started tasks are over.
    pub finished: nat,
}

impl System {
    /// A worker that has just been made: nothing waits, nothing is logged,
    /// the loop is idle.
    pub open spec fn fresh() -> System {
        System {
            queue: Seq::empty(),
            cancel_pending: false,
            shutdown_pending: false,
            live: true,
            phase: Phase::Idle,
            log: Seq::empty(),
            accepted: Seq::empty(),
            begun: Seq::empty(),
            finished: 0,
        }
    }

    /// What holds of a worker at every moment.
    ///
    /// The queue is never over its bound. Shutdown has been asked for exactly
    /// when its signal waits or the loop has stopped. The tasks started are
    /// the first of the tasks accepted, in the same order; until the loop
    /// stops, the rest of them is the queue. All started tasks are over, but
    /// for the last while the loop is executing it.
    pub open spec fn consistent(self) -> bool {
        &&& self.queue.len() <= MAX_QUEUED_TASKS
        &&& self.live <==> !self.shutdown_pending && !(self.phase is Stopped)
        &&& self.begun.is_prefix_of(self.accepted)
        &&& !(self.phase is Stopped) ==> self.begun + self.queue == self.accepted
        &&& match self.phase {
            Phase::Executing(run) => {
                &&& 1 <= run.reported <= TASK_STEPS
                &&& self.begun.len() == self.finished + 1
                &&& self.begun.last() == run.id
            },
            _ => self.begun.len() == self.finished,
        }
    }

    /// Whether the queue takes a task now: it has room, and the loop has not
    /// stopped and let go of it.
    pub open spec fn has_room(self) -> bool {
        !(self.phase is Stopped) && self.queue.len() < MAX_QUEUED_TASKS
    }

    /// The controlling thread submits the task `id`: a queue with room takes
    /// it at its end; otherwise the task is dropped. Either is logged.
    pub open spec fn submit(self, id: nat) -> System {
        if self.has_room() {
            System {
                queue: self.queue.push(id),
                accepted: self.accepted.push(id),
                log: self.log.push(submit_line(true)),
                ..self
            }
        } else {
            System { log: self.log.push(submit_line(false)), ..self }
        }
    }

    /// The controlling thread submits the tasks `ids`, one after the other.
    pub open spec fn submit_all(self, ids: Seq<nat>) -> System
        decreases ids.len(),
    {
        if ids.len() == 0 {
            self
        } else {
            self.submit(ids[0]).submit_all(ids.drop_first())
        }
    }

    /// The controlling thread asks for cancellation: a signal waits from now
    /// on, one and no more. A stopped loop has let go of the channel.
    pub open spec fn cancel(self) -> System {
        if self.phase is Stopped {
            self
        } else {
            System { cancel_pending: true, ..self }
        }
    }

    /// The event that the channels hold for the loop, if any.
    ///
    /// A loop between two steps of a task waits for the cancellation signal
    /// and finds whether one has come. An idle loop waits for the shutdown
    /// signal and the oldest task at once; with both there, `prefer_task`
    /// says which of them it happens to take. With neither there, and for a
    /// stopped loop, there is no event.
    pub open spec fn next_event(self, prefer_task: bool) -> Option<Event> {
        match self.phase {
            Phase::Stopped => None,
            Phase::Executing(_) => Some(Event::Waited { signalled: self.cancel_pending }),
            Phase::Idle => {
                if self.queue.len() > 0 && (prefer_task || !self.shutdown_pending) {
                    Some(
                        Event::Delivered {
                            id: self.queue[0],
                            shutdown_pending: self.shutdown_pending,
                        },
                    )
                } else if self.shutdown_pending {
                    Some(Event::Shutdown)
                } else {
                    None
                }
            },
        }
    }

    /// One step of the worker's thread: the loop takes the event that the
    /// channels hold for it, reacts, and logs the line. What it received is
    /// gone from the channels, and before it starts a task it throws away a
    /// cancellation signal that still waits. Without an event the loop keeps
    /// waiting and nothing changes.
    pub open spec fn work(self, prefer_task: bool) -> System {
        match self.next_event(prefer_task) {
            None => self,
            Some(event) => {
                let (phase, line) = react(self.phase, event);
                let started = self.phase is Idle && phase is Executing;
                System {
                    queue: if event is Delivered {
                        self.queue.drop_first()
                    } else {
                        self.queue
                    },
                    cancel_pending: self.cancel_pending && !(event is Waited) && !started,
                    shutdown_pending: self.shutdown_pending && !(event is Shutdown),
                    live: self.live,
                    phase,
                    log: self.log.push(line),
                    accepted: self.accepted,
                    begun: if started {
                        self.begun.push(self.queue[0])
                    } else {
                        self.begun
                    },
                    finished: if self.phase is Executing && phase is Idle {
                        self.finished + 1
                    } else {
                        self.finished
                    },
                }
            },
        }
    }

    /// The signals of a shutdown: the cancellation signal, for the task under
    /// way, and the first time also the shutdown signal.
    pub open spec fn ask_shutdown(self) -> System {
        if self.live {
            System { shutdown_pending: true, live: false, ..self.cancel() }
        } else {
            self.cancel()
        }
    }

    /// The controlling thread joins the worker's thread: the loop takes the
    /// steps that are left to it, and the join is logged.
    pub open spec fn join(self, prefer_task: bool) -> System {
        let stopped = self.work(prefer_task).work(prefer_task);
        System { log: stopped.log.push(join_line(true)), ..stopped }
    }

    /// The controlling thread shuts the worker down: it sends the signals,
    /// and the first time it then joins the worker's thread.
    pub open spec fn shutdown(self, prefer_task: bool) -> System {
        if self.live {
            self.ask_shutdown().join(prefer_task)
        } else {
            self.ask_shutdown()
        }
    }

    /// Whether no shutdown is under way: none has been asked for, or the one
    /// asked for is over. The controlling thread finds the worker so between
    /// any two of its calls, since a shutdown returns only when the loop has
    /// stopped.
    pub open spec fn at_rest(self) -> bool {
        self.live || self.phase is Stopped
    }
}

/// A new worker is consistent, and every step of either thread leaves a
/// consistent worker consistent.
pub proof fn law_consistency_is_kept(system: System, id: nat, prefer_task: bool)
    requires
        system.consistent(),
    ensures
        System::fresh().consistent(),
        system.submit(id).consistent(),
        system.cancel().consistent(),
        system.work(prefer_task).consistent(),
        system.ask_shutdown().consistent(),
        system.shutdown(prefer_task).consistent(),
{
    lemma_work_keeps_consistency(system, prefer_task);
    if system.live {
        lemma_shutdown_stops(system, prefer_task);
    }
}

/// Every event that the channels hold for the loop is one that the loop can
/// find in its phase.
pub proof fn law_events_fit_the_phase(system: System, prefer_task: bool)
    ensures
        system.next_event(prefer_task) matches Some(event) ==> fits(system.phase, event),
{
}

proof fn lemma_work_keeps_consistency(system: System, prefer_task: bool)
    requires
        system.consistent(),
    ensures
        system.work(prefer_task).consistent(),
{
    let after = system.work(prefer_task);
    match system.next_event(prefer_task) {
        None => {},
        Some(event) => {
            if event is Delivered && after.phase is Executing {
                assert(after.begun + after.queue =~= system.begun + system.queue);
            }
        },
    }
}

/// After its signals a shutdown needs two steps of the loop at most: one to
/// end the task under way, one to stop.
proof fn lemma_shutdown_stops(system: System, prefer_task: bool)
    requires
        system.consistent(),
        system.live,
    ensures
        system.ask_shutdown().work(prefer_task).work(prefer_task).phase is Stopped,
        system.shutdown(prefer_task).phase is Stopped,
        system.shutdown(prefer_task).consistent(),
{
    let asked = system.ask_shutdown();
    lemma_work_keeps_consistency(asked, prefer_task);
    lemma_work_keeps_consistency(asked.work(prefer_task), prefer_task);
}

/// A full queue refuses a task and stays as it is: the submission is logged as
/// dropped, and nothing else changes.
pub proof fn law_full_queue_rejects(system: System, id: nat)
    requires
        system.queue.len() == MAX_QUEUED_TASKS,
    ensures
        system.submit(id) == (System { log: system.log.push(submit_line(false)), ..system }),
{
}

/// Of tasks submitted one after the other, with no step of the loop between
/// them, the queue takes as many as it has room for, at its end and in their
/// order, and refuses the rest. Each submission is logged, and nothing else
/// changes: what waited in the queue before still waits there, in its order.
pub proof fn law_queue_takes_what_fits(system: System, ids: Seq<nat>)
    requires
        system.consistent(),
        !(system.phase is Stopped),
    ensures
        ({
            let room = MAX_QUEUED_TASKS - system.queue.len();
            let taken = if ids.len() <= room {
                ids
            } else {
                ids.take(room)
            };
            system.submit_all(ids) == (System {
                queue: system.queue + taken,
                accepted: system.accepted + taken,
                log: system.log + Seq::new(ids.len(), |i: int| submit_line(i < room)),
                ..system
            })
        }),
    decreases ids.len(),
{
    let room = MAX_QUEUED_TASKS - system.queue.len();
    let taken = if ids.len() <= room {
        ids
    } else {
        ids.take(room)
    };
    let lines = Seq::new(ids.len(), |i: int| submit_line(i < room));
    if ids.len() == 0 {
        assert(system.queue + taken =~= system.queue);
        assert(system.accepted + taken =~= system.accepted);
        assert(system.log + lines =~= system.log);
    } else {
        let next = system.submit(ids[0]);
        let rest = ids.drop_first();
        law_queue_takes_what_fits(next, rest);
        let next_room = MAX_QUEUED_TASKS - next.queue.len();
        let next_taken = if rest.len() <= next_room {
            rest
        } else {
            rest.take(next_room)
        };
        let next_lines = Seq::new(rest.len(), |i: int| submit_line(i < next_room));
        assert(next.queue + next_taken =~= system.queue + taken);
        assert(next.accepted + next_taken =~= system.accepted + taken);
        assert(next.log + next_lines =~= system.log + lines);
    }
}

/// One cancellation signal waits at most: asking twice is asking once.
pub proof fn law_one_signal_waits(system: System)
    ensures
        system.cancel().cancel() == system.cancel(),
{
}

/// A cancellation asked for while a task is between two steps ends the task at
/// the end of that wait: no further step is taken, the interruption is logged
/// and the loop is idle. The signal is used up, so it cannot end the next task
/// too.
pub proof fn law_cancel_interrupts_at_next_wait(system: System, prefer_task: bool)
    requires
        system.consistent(),
        system.phase is Executing,
    ensures
        ({
            let after = system.cancel().work(prefer_task);
            &&& after.phase is Idle
            &&& after.log == system.log.push(outcome_line(Err(TaskError::Interrupted)))
            &&& after.finished == system.finished + 1
            &&& !after.cancel_pending
        }),
{
}

/// A cancellation asked for while no task is under way does nothing to the
/// task that comes next: the loop throws the signal away before it starts the
/// task, and goes on exactly as if nobody had asked.
pub proof fn law_stale_cancel_has_no_effect(system: System, id: nat, prefer_task: bool)
    requires
        system.consistent(),
        system.phase is Idle,
        system.live,
    ensures
        system.cancel().submit(id).work(prefer_task) == system.submit(id).work(prefer_task),
        system.submit(id).work(prefer_task).phase is Executing,
        !system.submit(id).work(prefer_task).cancel_pending,
{
}

/// A task that nobody cancels takes its steps one by one, each logged, and is
/// logged as done after the last; the loop is idle again.
pub proof fn law_undisturbed_task_finishes(system: System, id: nat, prefer_task: bool)
    requires
        system.consistent(),
        system.phase == Phase::Executing(Running { id, reported: 1 }),
        !system.cancel_pending,
    ensures
        ({
            let after = system.work(prefer_task).work(prefer_task).work(prefer_task).work(
                prefer_task,
            );
            &&& after.phase is Idle
            &&& after.log == system.log + seq![
                progress_line(id, 2),
                progress_line(id, 3),
                progress_line(id, 4),
                outcome_line(Ok(())),
            ]
            &&& after.finished == system.finished + 1
        }),
{
}

/// Tasks run in the order in which the queue took them, one at a time: the
/// tasks started are always the first of the tasks accepted; and when the loop
/// starts a task, every task started before is over, and the task is the
/// oldest one waiting, which is the next of the accepted ones.
pub proof fn law_tasks_run_in_order(system: System, prefer_task: bool)
    requires
        system.consistent(),
    ensures
        system.begun.is_prefix_of(system.accepted),
        ({
            let after = system.work(prefer_task);
            after.begun != system.begun ==> {
                &&& system.finished == system.begun.len()
                &&& system.queue.len() > 0
                &&& system.accepted[system.begun.len() as int] == system.queue[0]
                &&& after.begun == system.begun.push(system.queue[0])
                &&& after.phase == Phase::Executing(Running { id: system.queue[0], reported: 1 })
                &&& after.queue == system.queue.drop_first()
            }
        }),
{
}

/// Shutdown stops the loop, whatever it was doing, and a second shutdown
/// changes nothing: it finds the loop stopped and leaves everything, the log
/// too, as the first one left it.
pub proof fn law_shutdown_is_idempotent(system: System, first: bool, second: bool)
    requires
        system.consistent(),
        system.at_rest(),
    ensures
        system.shutdown(first).phase is Stopped,
        !system.shutdown(first).live,
        system.shutdown(first).at_rest(),
        system.shutdown(first).shutdown(second) == system.shutdown(first),
{
    if system.live {
        lemma_shutdown_stops(system, first);
    }
}

/// A shutdown while a task is under way interrupts the task and then stops
/// the loop: the interruption, the stop and the join are logged in this
/// order, and no task is started any more, whatever waits in the queue. A
/// shutdown of an idle loop logs the stop and the join.
pub proof fn law_shutdown_ends_all_work(system: System, prefer_task: bool)
    requires
        system.consistent(),
        system.live,
    ensures
        ({
            let after = system.shutdown(prefer_task);
            &&& after.phase is Stopped
            &&& after.begun == system.begun
            &&& after.log == system.log + (if system.phase is Executing {
                seq![outcome_line(Err(TaskError::Interrupted)), stopping_line(), join_line(true)]
            } else {
                seq![stopping_line(), join_line(true)]
            })
        }),
{
    lemma_shutdown_stops(system, prefer_task);
}

} // verus!
