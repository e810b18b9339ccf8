//! The controlling thread's side: what a key asks for, and the numbers of the
//! tasks it submits.

use vstd::prelude::*;

use crate::task::Task;

verus! {

/// What a key asks of the worker.
#[derive(Debug, Clone, Copy, PartialEq, Eq, Structural)]
pub enum Command {
    /// Submit a new task.
    Submit,
    /// Cancel the task under way.
    Cancel,
    /// Leave.
    Exit,
}

/// The line that tells the user which keys do what.
pub open spec fn usage_line() -> Seq<char> {
    "Type 't' to queue a task, 'i' to interrupt the current one, anything else to exit"@
}

/// The line logged on leaving.
pub open spec fn exit_line() -> Seq<char> {
    "Exiting"@
}

impl Command {
    /// The command of the key `key`: `t` submits a task, `i` cancels the task
    /// under way, every other key leaves.
    pub open spec fn of_key(key: char) -> Command {
        if key == 't' {
            Command::Submit
        } else if key == 'i' {
            Command::Cancel
        } else {
            Command::Exit
        }
    }

    /// The command of the key `key`.
    pub fn from_key(key: char) -> (command: Command)
        ensures
            command == Command::of_key(key),
    {
        if key == 't' {
            Command::Submit
        } else if key == 'i' {
            Command::Cancel
        } else {
            Command::Exit
        }
    }
}

/// Writes the line that tells the user which keys do what.
pub fn usage_notice() -> (line: String)
    ensures
        line@ == usage_line(),
{
    String::from_str(
        "Type 't' to queue a task, 'i' to interrupt the current one, anything else to exit",
    )
}

/// Writes the line to log on leaving.
pub fn exit_notice() -> (line: String)
    ensures
        line@ == exit_line(),
{
    String::from_str("Exiting")
}

/// Hands out the tasks to submit, numbered from 1 upwards, so that no two
/// tasks of one submitter share a number.
pub struct Submitter {
    next_task_id: usize,
}

impl Submitter {
    /// The number that the next task gets.
    pub closed spec fn next_id(&self) -> usize {
        self.next_task_id
    }

    /// A submitter whose first task gets the number 1.
    pub fn new() -> (submitter: Submitter)
        ensures
            submitter.next_id() == 1,
    {
        Submitter { next_task_id: 1 }
    }

    /// A new task, with the next number, for as long as there is a number
    /// left: the last one handed out is `usize::MAX - 1`.
    pub fn next_task(&mut self) -> (task: Option<Task>)
        ensures
            old(self).next_id() < usize::MAX ==> task is Some && task->0.id() == old(self).next_id()
                && final(self).next_id() == old(self).next_id() + 1,
            old(self).next_id() == usize::MAX ==> task is None && final(self).next_id() == old(
                self,
            ).next_id(),
    {
        if self.next_task_id < usize::MAX {
            let task = Task::new(self.next_task_id);
            self.next_task_id = self.next_task_id + 1;
            Some(task)
        } else {
            None
        }
    }
}

} // verus!
