//! The foreground waiter: the one-shot handshake the command loop blocks
//! on after putting a job in the foreground.  The event processor releases
//! it by sending a wake token when the foreground job stops or terminates;
//! a signal cannot safely wake a blocked reader directly, so this
//! intermediary channel carries the wake-up.

use std::sync::mpsc::Receiver;

use vstd::prelude::*;

verus! {

/// The wake channel's receiving end (std's mpsc receiver), declared so it
/// can stand in the waiter's signature.
#[verifier::external_type_specification]
#[verifier::external_body]
#[verifier::reject_recursive_types(T)]
pub struct ExReceiver<T>(Receiver<T>);

/// Relies on std::sync::mpsc::Receiver::recv: blocks until the paired
/// sender sends a token (true) or has been dropped (false).
#[verifier::external_body]
fn recv_wake(rx: &Receiver<()>) -> bool {
    rx.recv().is_ok()
}

/// Blocks until the event processor confirms that the current foreground
/// job has stopped or terminated, by waiting for one token on the wake
/// channel.  Returns whether a token arrived (false only when the event
/// processor is gone).
pub fn waitfg(rx: &Receiver<()>) -> bool {
    recv_wake(rx)
}

} // verus!
