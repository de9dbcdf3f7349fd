//! A single-use channel backed by crossbeam.

use crate::channel::{bounded_channel, receive_on, send_on, Handed, Observed};
use vstd::prelude::*;

verus! {

/// The sending half of a oneshot channel.
#[derive(Debug)]
#[verifier::reject_recursive_types(T)]
pub struct OneshotSender<T>(crossbeam_channel::Sender<T>);

/// The receiving half of a oneshot channel.
#[derive(Debug)]
#[verifier::reject_recursive_types(T)]
pub struct OneshotReceiver<T>(crossbeam_channel::Receiver<T>);

/// A send that failed because the receiver was gone; it hands back the value.
#[derive(Debug, PartialEq, Eq)]
pub struct SendError<T>(pub T);

/// Creates a channel that can carry a single value.
///
/// The value is buffered (the channel holds one message), so sending does not
/// wait for the receiver.
pub fn channel<T>() -> (OneshotSender<T>, OneshotReceiver<T>) {
    let ends = bounded_channel(1);
    (OneshotSender(ends.sender), OneshotReceiver(ends.receiver))
}

impl<T> OneshotSender<T> {
    /// Sends the value, consuming this endpoint.
    ///
    /// Returns the value in an error if the receiver has been dropped.
    pub fn send(self, value: T) -> (r: Result<(), SendError<T>>)
        ensures
            r matches Err(e) ==> e.0 == value,
    {
        let mut handed = Handed::new();
        self.send_recorded(value, &mut handed)
    }

    /// Sends the value, consuming this endpoint, and records in `handed` that
    /// it was handed to the channel and whether the channel took it.
    pub fn send_recorded(self, value: T, handed: &mut Handed<T>) -> (r: Result<(), SendError<T>>)
        ensures
            final(handed).values() == old(handed).values().push((value, r is Ok)),
            r matches Err(e) ==> e.0 == value,
        opens_invariants none
        no_unwind
    {
        match send_on(&self.0, value, handed) {
            Ok(()) => Ok(()),
            Err(returned) => Err(SendError(returned)),
        }
    }
}

impl<T> OneshotReceiver<T> {
    /// Waits for the value, consuming this endpoint.
    ///
    /// Returns an error if the sender is dropped without sending a value.
    pub fn recv(self) -> Result<T, crossbeam_channel::RecvError> {
        let mut observed = Observed::new();
        self.recv_recorded(&mut observed)
    }

    /// Waits for the value, consuming this endpoint, and records in `observed`
    /// what the wait returned.
    pub fn recv_recorded(self, observed: &mut Observed<Result<T, crossbeam_channel::RecvError>>) -> (r: Result<
        T,
        crossbeam_channel::RecvError,
    >)
        ensures
            final(observed).values() == old(observed).values().push(r),
    {
        receive_on(&self.0, observed)
    }
}

} // verus!
