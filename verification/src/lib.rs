//! A background worker that runs queued tasks one at a time on a thread of its
//! own, lets the controlling thread cancel the task in flight, and shuts down
//! cleanly.
//!
//! The crate holds the decisions of both threads and the calls on the channels
//! between them. Spawning and joining the thread, reading keys and writing log
//! lines are left to the caller, which is handed each line as a `String`.

pub mod channel;
pub mod control;
pub mod protocol;
pub mod task;
pub mod text;
pub mod worker;
