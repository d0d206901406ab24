//! The outbound channel of one connection.
//!
//! A connection's frames are queued on an unbounded channel of
//! `futures_channel::mpsc`. The hub holds the sending half; whoever drives the
//! socket holds the receiving half and drains it.

use vstd::prelude::*;
use futures_channel::mpsc::{UnboundedReceiver, UnboundedSender};

verus! {

/// `futures_channel::mpsc::UnboundedSender`, the sending half of a channel.
#[verifier::external_type_specification]
#[verifier::external_body]
#[verifier::reject_recursive_types(T)]
pub struct ExUnboundedSender<T>(UnboundedSender<T>);

/// `futures_channel::mpsc::UnboundedReceiver`, the receiving half of a
/// channel. The hub makes it and hands it on; it never reads from it.
#[verifier::external_type_specification]
#[verifier::external_body]
#[verifier::reject_recursive_types(T)]
pub struct ExUnboundedReceiver<T>(UnboundedReceiver<T>);

/// Calls `futures_channel::mpsc::unbounded` for a channel of text frames.
/// Nothing is claimed of the two halves.
#[verifier::external_body]
pub(crate) fn open() -> (halves: (UnboundedSender<String>, UnboundedReceiver<String>)) {
    futures_channel::mpsc::unbounded::<String>()
}

/// Calls `UnboundedSender::unbounded_send` and says whether the frame was
/// queued. Whether it is depends on the receiving half, which another task
/// may close at any moment, so nothing is claimed of the answer. (The call
/// panics on a queue of more frames than memory can hold.)
#[verifier::external_body]
pub(crate) fn push(sender: &UnboundedSender<String>, frame: String) -> (queued: bool) {
    sender.unbounded_send(frame).is_ok()
}

/// Calls `UnboundedSender::clone`. The clone is a second handle on the same
/// channel; the hub does not tell the two apart, which is what the contract
/// says. (The call panics on more handles than memory can hold.)
#[verifier::external_body]
pub(crate) fn share(sender: &UnboundedSender<String>) -> (handle: UnboundedSender<String>)
    ensures
        handle == *sender,
{
    sender.clone()
}

} // verus!
