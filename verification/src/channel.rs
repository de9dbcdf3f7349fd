//! The crossbeam channel operations that the stage and the scheduler rely on.
//!
//! What a channel operation returns depends on the other end of the channel
//! (another thread, or whether it is still alive), so nothing is promised about
//! the results beyond their types.

use vstd::layout::{align_of, layout_for_type_is_valid, size_of};
use vstd::prelude::*;

verus! {

#[verifier::external_type_specification]
#[verifier::external_body]
#[verifier::reject_recursive_types(T)]
pub struct ExCrossbeamSender<T>(crossbeam_channel::Sender<T>);

#[verifier::external_type_specification]
#[verifier::external_body]
#[verifier::reject_recursive_types(T)]
pub struct ExCrossbeamReceiver<T>(crossbeam_channel::Receiver<T>);

#[verifier::external_type_specification]
#[verifier::external_body]
pub struct ExCrossbeamRecvError(crossbeam_channel::RecvError);

/// A record, for proofs, of the values handed to channel sends through
/// [`send_on`], in order, each with whether the channel took it.
pub struct Handed<T> {
    values: Ghost<Seq<(T, bool)>>,
}

impl<T> Handed<T> {
    pub closed spec fn values(&self) -> Seq<(T, bool)> {
        self.values@
    }

    /// An empty record.
    pub fn new() -> (r: Self)
        ensures
            r.values() == Seq::<(T, bool)>::empty(),
    {
        Handed { values: Ghost(Seq::empty()) }
    }
}

/// A record, for proofs, of the values that calls observed (a receive's
/// result, a flag's reading), in order.
pub struct Observed<T> {
    values: Ghost<Seq<T>>,
}

impl<T> Observed<T> {
    pub closed spec fn values(&self) -> Seq<T> {
        self.values@
    }

    /// An empty record.
    pub fn new() -> (r: Self)
        ensures
            r.values() == Seq::<T>::empty(),
    {
        Observed { values: Ghost(Seq::empty()) }
    }
}

/// The two ends of a bounded channel and the capacity it was built with.
#[verifier::reject_recursive_types(T)]
pub struct BoundedChannel<T> {
    pub sender: crossbeam_channel::Sender<T>,
    pub receiver: crossbeam_channel::Receiver<T>,
    pub capacity: usize,
}

/// What a receive with a deadline observed.
pub enum TimedReceive<T> {
    Received(T),
    TimedOut,
    Disconnected,
}

/// An upper bound on the bytes one buffered message takes in a bounded channel
/// (the message, the slot's stamp, and padding).
pub open spec fn channel_slot_bound<T>() -> int {
    (size_of::<T>() + align_of::<T>() + 16) as int
}

/// The capacities for which a bounded channel of `T` can be built without
/// panicking: a single slot always can; more slots as long as the lap counters
/// do not overflow and the slot buffer stays within `isize::MAX` bytes.
pub open spec fn channel_capacity_supported<T>(cap: int) -> bool {
    ||| cap == 1
    ||| (0 <= cap < 0x4000_0000_0000_0000 && cap * channel_slot_bound::<T>() <= isize::MAX)
}

/// Whether a bounded channel of `T` with `cap` slots can be built.
pub fn supports_channel_capacity<T>(cap: usize) -> (r: bool)
    ensures
        r == channel_capacity_supported::<T>(cap as int),
{
    layout_for_type_is_valid::<T>();
    if cap <= 1 {
        assert(0 * channel_slot_bound::<T>() == 0) by (nonlinear_arith);
        return true;
    }
    proof {
        let bound = channel_slot_bound::<T>();
        assert(bound > usize::MAX ==> cap * bound > isize::MAX) by (nonlinear_arith)
            requires
                cap >= 2,
                usize::MAX >= isize::MAX,
        ;
    }
    if cap as u64 >= 0x4000_0000_0000_0000u64 {
        return false;
    }
    let slot = match core::mem::size_of::<T>().checked_add(core::mem::align_of::<T>()) {
        Some(bytes) => bytes,
        None => return false,
    };
    let slot = match slot.checked_add(16) {
        Some(bytes) => bytes,
        None => return false,
    };
    match cap.checked_mul(slot) {
        Some(total) => total <= isize::MAX as usize,
        None => false,
    }
}

/// Calls `crossbeam_channel::bounded(cap)`: a channel that buffers up to `cap`
/// messages. Its source panics when the capacity is too large to set up the
/// channel, which `requires` rules out. The two ends are opaque; what is
/// claimed is the capacity the call was given.
#[verifier::external_body]
pub(crate) fn bounded_channel<T>(cap: usize) -> (r: BoundedChannel<T>)
    requires
        channel_capacity_supported::<T>(cap as int),
    ensures
        r.capacity == cap,
{
    let (sender, receiver) = crossbeam_channel::bounded(cap);
    BoundedChannel { sender, receiver, capacity: cap }
}

/// Calls `crossbeam_channel::Sender::send` with `message`, and records in
/// `handed` that this message was handed over and whether the channel took it.
/// Whether it does depends on whether a receiver is still alive, so that is not
/// claimed; a failed send hands back the message it was given, as crossbeam
/// documents. The call does not panic (it waits while the channel is full and
/// fails once it is disconnected).
#[verifier::external_body]
pub(crate) fn send_on<T>(sender: &crossbeam_channel::Sender<T>, message: T, handed: &mut Handed<T>) -> (r: Result<
    (),
    T,
>)
    ensures
        final(handed).values() == old(handed).values().push((message, r is Ok)),
        r matches Err(returned) ==> returned == message,
    opens_invariants none
    no_unwind
{
    sender.send(message).map_err(|error| error.0)
}

/// Calls `crossbeam_channel::Receiver::recv`: blocks until a message arrives or
/// every sender is gone, and records in `observed` what it returned. Which of the
/// two happens is not stated.
#[verifier::external_body]
pub(crate) fn receive_on<T>(
    receiver: &crossbeam_channel::Receiver<T>,
    observed: &mut Observed<Result<T, crossbeam_channel::RecvError>>,
) -> (r: Result<T, crossbeam_channel::RecvError>)
    ensures
        final(observed).values() == old(observed).values().push(r),
{
    receiver.recv()
}

/// Calls `crossbeam_channel::Receiver::recv_timeout` with a deadline of
/// `timeout_millis` milliseconds and tells its three outcomes apart. Which one
/// comes is not stated.
#[verifier::external_body]
pub(crate) fn receive_with_timeout<T>(receiver: &crossbeam_channel::Receiver<T>, timeout_millis: u64) -> (r: TimedReceive<T>) {
    match receiver.recv_timeout(std::time::Duration::from_millis(timeout_millis)) {
        Ok(message) => TimedReceive::Received(message),
        Err(crossbeam_channel::RecvTimeoutError::Timeout) => TimedReceive::TimedOut,
        Err(crossbeam_channel::RecvTimeoutError::Disconnected) => TimedReceive::Disconnected,
    }
}

/// Calls `Clone::clone` on a `crossbeam_channel::Sender`: another handle to the
/// same channel. The clone is the same value (crossbeam's source builds it from
/// the same flavor and the same pointer to the channel's counter, after raising
/// the count of senders).
#[verifier::external_body]
pub(crate) fn clone_sender<T>(sender: &crossbeam_channel::Sender<T>) -> (r: crossbeam_channel::Sender<T>)
    ensures
        r == *sender,
{
    sender.clone()
}

} // verus!
