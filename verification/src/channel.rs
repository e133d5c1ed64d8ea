//! Trusted declarations for the standard mpsc channel sender.
//!
//! All inter-thread communication goes over one-way channels. The library
//! only ever sends; receiving stays with the surrounding application.

use vstd::prelude::*;

verus! {

/// The library's own error for a send whose receiving end has gone away.
/// Such a failure is recoverable: callers report it and carry on.
#[derive(Debug, Clone, Copy, PartialEq, Eq, Structural)]
pub struct ChannelClosed;

#[verifier::external_type_specification]
#[verifier::external_body]
#[verifier::reject_recursive_types(T)]
pub struct ExSender<T>(std::sync::mpsc::Sender<T>);

#[verifier::external_type_specification]
#[verifier::external_body]
#[verifier::reject_recursive_types(T)]
pub struct ExSendError<T>(std::sync::mpsc::SendError<T>);

/// Relies on `std::sync::mpsc::Sender::send`: it queues the value for the
/// receiver without blocking and fails only when the receiving end has
/// disconnected. Whether it succeeds depends on the receiver's state, so
/// nothing is promised of the outcome.
pub assume_specification<T>[ std::sync::mpsc::Sender::<T>::send ](
    s: &std::sync::mpsc::Sender<T>,
    t: T,
) -> Result<(), std::sync::mpsc::SendError<T>>;

/// Sends a value, folding the channel's error type into the library's own.
/// Success depends on the far end of the channel, so no more can be said.
pub fn send_value<T>(tx: &std::sync::mpsc::Sender<T>, value: T) -> (r: Result<
    (),
    ChannelClosed,
>) {
    match tx.send(value) {
        Ok(()) => Ok(()),
        Err(_) => Err(ChannelClosed),
    }
}

} // verus!
