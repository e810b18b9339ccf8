//! The channel operations of `crossbeam` that the worker is built on.
//!
//! Nothing here is proved: each function hands its arguments to `crossbeam` and
//! its contract is taken on trust. What a channel holds changes under the
//! hands of the other thread, so almost nothing is promised of a result.

use vstd::prelude::*;

verus! {

/// `crossbeam::channel::Sender`, the sending end of a channel, as a value
/// that is only handed on.
#[verifier::external_type_specification]
#[verifier::external_body]
#[verifier::reject_recursive_types(T)]
pub struct ExSender<T>(crossbeam::channel::Sender<T>);

/// `crossbeam::channel::Receiver`, the receiving end of a channel, as a value
/// that is only handed on.
#[verifier::external_type_specification]
#[verifier::external_body]
#[verifier::reject_recursive_types(T)]
pub struct ExReceiver<T>(crossbeam::channel::Receiver<T>);

/// `crossbeam::channel::RecvError`, the error of a receive on a channel that
/// is empty and has no sender left.
#[verifier::external_type_specification]
#[verifier::external_body]
pub struct ExRecvError(crossbeam::channel::RecvError);

/// The largest capacity that [`bounded`] is asked for: `crossbeam` panics when
/// twice the next power of two above the capacity does not fit in a `usize`.
pub const MAX_CAPACITY: usize = 0x3fff_ffff;

/// `crossbeam::channel::bounded`: a new channel that holds at most `cap`
/// messages, as its two ends.
#[verifier::external_body]
pub(crate) fn bounded<T>(cap: usize) -> (ends: (
    crossbeam::channel::Sender<T>,
    crossbeam::channel::Receiver<T>,
))
    requires
        cap <= MAX_CAPACITY,
{
    crossbeam::channel::bounded(cap)
}

/// `Sender::try_send`: offers `msg` to the channel without blocking. The
/// result is `true` when the channel took the message, `false` when the channel
/// was full or had no receiver left; the refused message is dropped.
#[verifier::external_body]
pub(crate) fn try_send<T>(sender: &crossbeam::channel::Sender<T>, msg: T) -> (taken: bool) {
    sender.try_send(msg).is_ok()
}

/// `Receiver::try_recv`: takes the oldest message out of the channel without
/// blocking, if there is one.
#[verifier::external_body]
pub(crate) fn try_recv<T>(receiver: &crossbeam::channel::Receiver<T>) -> (msg: Option<T>) {
    receiver.try_recv().ok()
}

/// The longest wait that [`recv_timeout`] is asked for, in seconds. A wait
/// too long for the clock to add to the present moment is one that
/// `crossbeam` does not end.
pub const MAX_WAIT_SECS: u64 = 0xffff_ffff;

/// `Receiver::recv_timeout`: waits up to `secs` seconds for a message. `None`
/// stands for a wait that ran out and for a channel without senders.
#[verifier::external_body]
pub(crate) fn recv_timeout<T>(receiver: &crossbeam::channel::Receiver<T>, secs: u64) -> (msg:
    Option<T>)
    requires
        secs <= MAX_WAIT_SECS,
{
    receiver.recv_timeout(std::time::Duration::from_secs(secs)).ok()
}

/// `Receiver::is_empty`: whether the channel held no message at the moment of
/// the call.
#[verifier::external_body]
pub(crate) fn is_empty<T>(receiver: &crossbeam::channel::Receiver<T>) -> (empty: bool) {
    receiver.is_empty()
}

/// What [`recv_either`] received, and from which of its two channels. The
/// error stands for a channel that is empty and has no sender left.
pub enum Selected<A, B> {
    First(Result<A, crossbeam::channel::RecvError>),
    Second(Result<B, crossbeam::channel::RecvError>),
}

/// `Select::select` over a receive on each of the two channels, completed by
/// `SelectedOperation::recv`: blocks until one of the channels has a message
/// or has lost its senders, and receives from that one. Where both are ready
/// `crossbeam` picks one at random.
#[verifier::external_body]
pub(crate) fn recv_either<A, B>(
    first: &crossbeam::channel::Receiver<A>,
    second: &crossbeam::channel::Receiver<B>,
) -> (got: Selected<A, B>) {
    let mut select = crossbeam::channel::Select::new();
    let index = select.recv(first);
    select.recv(second);
    let operation = select.select();
    if operation.index() == index {
        Selected::First(operation.recv(first))
    } else {
        Selected::Second(operation.recv(second))
    }
}

/// What `crossbeam` writes for a `RecvError`.
pub open spec fn recv_error_text() -> Seq<char> {
    "receiving on an empty and disconnected channel"@
}

/// `RecvError`'s `Display`, through `to_string`: the error in words, which
/// are always the same.
#[verifier::external_body]
pub(crate) fn recv_error_string(error: &crossbeam::channel::RecvError) -> (text: String)
    ensures
        text@ == recv_error_text(),
{
    error.to_string()
}

/// `Receiver::clone`: another handle on the same channel.
#[verifier::external_body]
pub(crate) fn clone_receiver<T>(receiver: &crossbeam::channel::Receiver<T>) -> (other:
    crossbeam::channel::Receiver<T>) {
    receiver.clone()
}

} // verus!
