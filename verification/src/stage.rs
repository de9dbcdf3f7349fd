//! Replay's side of the block verification stage: starting the verification of
//! a block, and the type-state session through which its entries are submitted.

use crate::channel::{clone_sender, send_on, Handed, Observed};
use crate::messages::{
    AbortMessage, BeginMessageResponse, BlockVerificationOutcome, CompleteMessage, EntryMessage, ReplayEvent,
    ReplayToBlockVerificationMessage,
};
use crate::utils::cancellation_token::CancellationToken;
use crate::utils::oneshot::{self, OneshotReceiver};
use solana_clock::{BankId, Slot};
use std::marker::PhantomData;
use vstd::prelude::*;

verus! {

/// A type-state used over [`BlockVerificationSession<Started>`] representing the state
/// where verification of the block has started.
///
/// In this state entries can be added with [`BlockVerificationSession::submit_entry`] until
/// the session is either aborted with [`BlockVerificationSession::abort_block_verification`]
/// or marked as completed with [`BlockVerificationSession::mark_completed`], which transitions
/// it to the [`Aborted`] or [`AllEntriesSubmitted`] type state respectively.
#[derive(Debug)]
pub struct Started;

/// A type-state used over [`BlockVerificationSession<AllEntriesSubmitted>`] representing the
/// state where replay has submitted every entry of the block. Verification may still be running.
///
/// In this state the [`BlockVerificationSession`] can either wait for the verification
/// result with [`BlockVerificationSession::wait_for_outcome`] or abort with
/// [`BlockVerificationSession::abort_block_verification`].
#[derive(Debug)]
pub struct AllEntriesSubmitted;

/// A type-state used over [`BlockVerificationSession<Aborted>`] representing the state
/// where the verification request has been aborted.
///
/// This state is terminal and only [`BlockVerificationSession::wait_for_outcome`] can be
/// called to get the final result.
#[derive(Debug)]
pub struct Aborted;

/// A state that can wait for its outcome from the scheduler with
/// [`BlockVerificationSession::wait_for_outcome`].
pub trait WaitForOutcome {}

impl WaitForOutcome for AllEntriesSubmitted {}

impl WaitForOutcome for Aborted {}

/// A state that can request abortion to the scheduler with
/// [`BlockVerificationSession::abort_block_verification`].
pub trait AbortBlockVerification {}

impl AbortBlockVerification for Started {}

impl AbortBlockVerification for AllEntriesSubmitted {}

/// Why a block could not be started.
#[derive(Debug, PartialEq, Eq, Structural)]
pub enum BeginBlockError {
    SchedulerShutDown,
    BankIdOccupied,
    SlotIdOccupied,
}

/// The scheduler is no longer listening.
#[derive(Debug, PartialEq, Eq, Structural)]
pub struct SchedulerShutdownError;

/// Replay's handle on the scheduler.
///
/// Replay calls [`BlockVerificationStage::begin_block`] to start verifying a block, which
/// returns a [`BlockVerificationSession`] for that block. Dropping the stage stops the
/// scheduler.
#[derive(Debug)]
pub struct BlockVerificationStage {
    replay_message_sender: crossbeam_channel::Sender<ReplayToBlockVerificationMessage>,
    /// Signals the scheduler to stop when cancelled or dropped.
    shutdown_token: CancellationToken,
}

/// How the scheduler's answer to a begin request becomes the result of
/// [`BlockVerificationStage::begin_block`]: no answer at all means that the
/// scheduler has shut down.
pub fn begin_block_response(
    response: Result<BeginMessageResponse, crossbeam_channel::RecvError>,
) -> (r: Result<OneshotReceiver<BlockVerificationOutcome>, BeginBlockError>)
    ensures
        match response {
            Ok(BeginMessageResponse::Success { verification_receiver }) => r == Ok::<
                OneshotReceiver<BlockVerificationOutcome>,
                BeginBlockError,
            >(verification_receiver),
            Ok(BeginMessageResponse::BankIdOccupied) => r == Err::<
                OneshotReceiver<BlockVerificationOutcome>,
                BeginBlockError,
            >(BeginBlockError::BankIdOccupied),
            Ok(BeginMessageResponse::SlotIdOccupied) => r == Err::<
                OneshotReceiver<BlockVerificationOutcome>,
                BeginBlockError,
            >(BeginBlockError::SlotIdOccupied),
            Err(_) => r == Err::<OneshotReceiver<BlockVerificationOutcome>, BeginBlockError>(
                BeginBlockError::SchedulerShutDown,
            ),
        },
{
    match response {
        Ok(BeginMessageResponse::Success { verification_receiver }) => Ok(verification_receiver),
        Ok(BeginMessageResponse::BankIdOccupied) => Err(BeginBlockError::BankIdOccupied),
        Ok(BeginMessageResponse::SlotIdOccupied) => Err(BeginBlockError::SlotIdOccupied),
        Err(_) => Err(BeginBlockError::SchedulerShutDown),
    }
}

/// How the outcome of sending to the scheduler becomes a session's result: a
/// send fails only once the scheduler has stopped listening.
pub fn scheduler_send_result<T>(sent: Result<(), T>) -> (r: Result<
    (),
    SchedulerShutdownError,
>)
    ensures
        r is Ok <==> sent is Ok,
    opens_invariants none
    no_unwind
{
    match sent {
        Ok(()) => Ok(()),
        Err(_) => Err(SchedulerShutdownError),
    }
}

/// How what the outcome channel delivered becomes the result of
/// [`BlockVerificationSession::wait_for_outcome`]: no outcome at all means that
/// the scheduler dropped the block when it shut down.
pub fn received_outcome(received: Result<BlockVerificationOutcome, crossbeam_channel::RecvError>) -> (r: Result<
    BlockVerificationOutcome,
    SchedulerShutdownError,
>)
    ensures
        match received {
            Ok(outcome) => r == Ok::<BlockVerificationOutcome, SchedulerShutdownError>(outcome),
            Err(_) => r == Err::<BlockVerificationOutcome, SchedulerShutdownError>(SchedulerShutdownError),
        },
{
    match received {
        Ok(outcome) => Ok(outcome),
        Err(_) => Err(SchedulerShutdownError),
    }
}

impl BlockVerificationStage {
    pub closed spec fn shutdown_flag(&self) -> std::sync::Arc<std::sync::atomic::AtomicBool> {
        self.shutdown_token.flag()
    }

    /// The sender of the channel that the scheduler receives replay's messages on.
    pub closed spec fn replay_sender(&self) -> crossbeam_channel::Sender<ReplayToBlockVerificationMessage> {
        self.replay_message_sender
    }

    pub fn new(
        replay_message_sender: crossbeam_channel::Sender<ReplayToBlockVerificationMessage>,
        shutdown_token: CancellationToken,
    ) -> (r: Self)
        ensures
            r.shutdown_flag() == shutdown_token.flag(),
            r.replay_sender() == replay_message_sender,
    {
        BlockVerificationStage { replay_message_sender, shutdown_token }
    }

    /// Raises the shutdown flag that the scheduler polls, and lets go of this
    /// side of the replay channel.
    pub fn request_shutdown(self) {
        self.shutdown_token.cancel();
    }

    /// Starts verifying the block for `bank_id` at `slot`, returning a session to submit its
    /// entries to.
    ///
    /// Fails if another in-progress block already uses `bank_id` or `slot`, or if the
    /// scheduler no longer listens.
    pub fn begin_block(&self, bank_id: BankId, slot: Slot, parent_bank_last_entry_hash: solana_hash::Hash) -> (r:
        Result<BlockVerificationSession<Started>, BeginBlockError>)
        ensures
            r matches Ok(session) ==> {
                &&& session.bank_id() == bank_id
                &&& session.armed()
                &&& session.sent().len() == 1
                &&& session.sent()[0].0.event() == (ReplayEvent::Begin { bank_id, slot })
                &&& session.sent()[0].1
                &&& session.replay_sender() == self.replay_sender()
                &&& session.begin_answer() == Some(
                    Ok::<BeginMessageResponse, crossbeam_channel::RecvError>(
                        BeginMessageResponse::Success { verification_receiver: session.outcome_receiver() },
                    ),
                )
            },
    {
        let (begin_message_response_sender, begin_message_response_receiver) = oneshot::channel();
        let begin_message = ReplayToBlockVerificationMessage::begin(
            bank_id,
            slot,
            parent_bank_last_entry_hash,
            begin_message_response_sender,
        );
        let mut handed = Handed::new();
        begin_send_result(send_on(&self.replay_message_sender, begin_message, &mut handed))?;
        let mut answers = Observed::new();
        let answer = begin_message_response_receiver.recv_recorded(&mut answers);
        let oneshot_response_receiver = begin_block_response(answer)?;
        let mut session = BlockVerificationSession::new(
            bank_id,
            clone_sender(&self.replay_message_sender),
            oneshot_response_receiver,
        );
        session.sender.handed = handed;
        session.begin_answer = Ghost(Some(answers.values().last()));
        Ok(session)
    }
}

/// How the outcome of sending a begin request becomes the result of
/// [`BlockVerificationStage::begin_block`]: a send fails only once the scheduler
/// has stopped listening.
pub fn begin_send_result<T>(sent: Result<(), T>) -> (r: Result<(), BeginBlockError>)
    ensures
        sent is Ok ==> r == Ok::<(), BeginBlockError>(()),
        sent is Err ==> r == Err::<(), BeginBlockError>(BeginBlockError::SchedulerShutDown),
{
    match sent {
        Ok(()) => Ok(()),
        Err(_) => Err(BeginBlockError::SchedulerShutDown),
    }
}

/// The verification of a single block, from [`BlockVerificationStage::begin_block`] until
/// its outcome is received.
///
/// `SchedulingState` is one of [`Started`], [`AllEntriesSubmitted`] or [`Aborted`]. Dropping
/// the session before calling [`BlockVerificationSession::wait_for_outcome`] aborts
/// verification of the block.
pub struct BlockVerificationSession<SchedulingState> {
    sender: AbortOnDropSender,
    block_verification_outcome_receiver: OneshotReceiver<BlockVerificationOutcome>,
    scheduling_state: PhantomData<SchedulingState>,
    /// The scheduler's answer to the begin request that opened this session, as
    /// the receive recorded it (none when the session was built directly).
    begin_answer: Ghost<Option<Result<BeginMessageResponse, crossbeam_channel::RecvError>>>,
}

impl<SchedulingState> BlockVerificationSession<SchedulingState> {
    /// The bank whose block this session verifies.
    pub closed spec fn bank_id(&self) -> BankId {
        self.sender.bank_id()
    }

    /// Whether dropping the session would send an abort for its block.
    pub closed spec fn armed(&self) -> bool {
        self.sender.armed()
    }

    /// The messages handed to the scheduler's channel for this block, in order,
    /// each with whether the channel took it.
    pub closed spec fn sent(&self) -> Seq<(ReplayToBlockVerificationMessage, bool)> {
        self.sender.sent()
    }

    /// The sender of the channel this session's messages go to.
    pub closed spec fn replay_sender(&self) -> crossbeam_channel::Sender<ReplayToBlockVerificationMessage> {
        self.sender.replay_sender()
    }

    /// The scheduler's answer to the begin request that opened this session, as
    /// it was received.
    pub closed spec fn begin_answer(&self) -> Option<Result<BeginMessageResponse, crossbeam_channel::RecvError>> {
        self.begin_answer@
    }

    /// Where the scheduler's verdict on the block arrives.
    pub closed spec fn outcome_receiver(&self) -> OneshotReceiver<BlockVerificationOutcome> {
        self.block_verification_outcome_receiver
    }
}

impl<SchedulingState: AbortBlockVerification> BlockVerificationSession<SchedulingState> {
    /// Asks the scheduler to abort the block. The sender is disarmed first, so no
    /// further abort is sent for the block, whatever the result.
    pub fn abort_block_verification(self) -> (r: Result<BlockVerificationSession<Aborted>, SchedulerShutdownError>)
        ensures
            r matches Ok(session) ==> {
                &&& session.bank_id() == self.bank_id()
                &&& !session.armed()
                &&& session.outcome_receiver() == self.outcome_receiver()
                &&& session.replay_sender() == self.replay_sender()
                &&& session.begin_answer() == self.begin_answer()
                &&& session.sent() == self.sent().push(
                    (ReplayToBlockVerificationMessage::Abort(AbortMessage { bank_id: self.bank_id() }), true),
                )
            },
    {
        let BlockVerificationSession { sender, block_verification_outcome_receiver, scheduling_state: _, begin_answer } =
            self;
        let mut sender = sender;
        sender.send_abort()?;
        Ok(
            BlockVerificationSession::<Aborted> {
                sender,
                block_verification_outcome_receiver,
                scheduling_state: PhantomData,
                begin_answer,
            },
        )
    }
}

impl BlockVerificationSession<Started> {
    pub fn new(
        bank_id: BankId,
        replay_message_sender: crossbeam_channel::Sender<ReplayToBlockVerificationMessage>,
        block_verification_outcome_receiver: OneshotReceiver<BlockVerificationOutcome>,
    ) -> (r: Self)
        ensures
            r.bank_id() == bank_id,
            r.armed(),
            r.outcome_receiver() == block_verification_outcome_receiver,
            r.sent() == Seq::<(ReplayToBlockVerificationMessage, bool)>::empty(),
            r.replay_sender() == replay_message_sender,
            r.begin_answer() is None,
    {
        BlockVerificationSession {
            sender: AbortOnDropSender::new(bank_id, replay_message_sender),
            block_verification_outcome_receiver,
            scheduling_state: PhantomData,
            begin_answer: Ghost(None),
        }
    }

    /// Hands one entry of the block to the scheduler.
    pub fn submit_entry(&mut self, entry: bytes::Bytes) -> (r: Result<(), SchedulerShutdownError>)
        ensures
            final(self).bank_id() == old(self).bank_id(),
            final(self).armed() == old(self).armed(),
            final(self).outcome_receiver() == old(self).outcome_receiver(),
            final(self).replay_sender() == old(self).replay_sender(),
            final(self).begin_answer() == old(self).begin_answer(),
            final(self).sent() == old(self).sent().push(
                (
                    ReplayToBlockVerificationMessage::Entry(EntryMessage { bank_id: old(self).bank_id(), entry }),
                    r is Ok,
                ),
            ),
    {
        self.sender.send_entry(entry)
    }

    /// Tells the scheduler that every entry of the block has been submitted.
    pub fn mark_completed(self) -> (r: Result<BlockVerificationSession<AllEntriesSubmitted>, SchedulerShutdownError>)
        ensures
            r matches Ok(session) ==> {
                &&& session.bank_id() == self.bank_id()
                &&& session.armed() == self.armed()
                &&& session.outcome_receiver() == self.outcome_receiver()
                &&& session.replay_sender() == self.replay_sender()
                &&& session.begin_answer() == self.begin_answer()
                &&& session.sent() == self.sent().push(
                    (ReplayToBlockVerificationMessage::Complete(CompleteMessage { bank_id: self.bank_id() }), true),
                )
            },
    {
        let BlockVerificationSession { sender, block_verification_outcome_receiver, scheduling_state: _, begin_answer } =
            self;
        let mut sender = sender;
        sender.send_complete()?;
        Ok(
            BlockVerificationSession::<AllEntriesSubmitted> {
                sender,
                block_verification_outcome_receiver,
                scheduling_state: PhantomData,
                begin_answer,
            },
        )
    }
}

impl<SchedulingState: WaitForOutcome> BlockVerificationSession<SchedulingState> {
    /// Waits for the scheduler's verdict on the block. Nothing is sent for the
    /// block once this is called, whatever comes back.
    pub fn wait_for_outcome(self) -> Result<BlockVerificationOutcome, SchedulerShutdownError> {
        let BlockVerificationSession { sender, block_verification_outcome_receiver, scheduling_state: _, begin_answer } =
            self;
        let mut sender = sender;
        sender.disarm();
        received_outcome(block_verification_outcome_receiver.recv())
    }
}

/// Sends messages for one block to the scheduler.
///
/// Sends `Abort` for `bank_id` when dropped unless disarmed.
pub struct AbortOnDropSender {
    bank_id: BankId,
    replay_message_sender: crossbeam_channel::Sender<ReplayToBlockVerificationMessage>,
    armed: bool,
    handed: Handed<ReplayToBlockVerificationMessage>,
}

impl AbortOnDropSender {
    pub closed spec fn bank_id(&self) -> BankId {
        self.bank_id
    }

    pub closed spec fn armed(&self) -> bool {
        self.armed
    }

    /// The sender of the channel this sender's messages go to.
    pub closed spec fn replay_sender(&self) -> crossbeam_channel::Sender<ReplayToBlockVerificationMessage> {
        self.replay_message_sender
    }

    /// The messages handed to the channel through this sender, in order, each
    /// with whether the channel took it.
    pub closed spec fn sent(&self) -> Seq<(ReplayToBlockVerificationMessage, bool)> {
        self.handed.values()
    }

    pub fn new(
        bank_id: BankId,
        replay_message_sender: crossbeam_channel::Sender<ReplayToBlockVerificationMessage>,
    ) -> (r: Self)
        ensures
            r.bank_id() == bank_id,
            r.armed(),
            r.sent() == Seq::<(ReplayToBlockVerificationMessage, bool)>::empty(),
            r.replay_sender() == replay_message_sender,
    {
        AbortOnDropSender { bank_id, replay_message_sender, armed: true, handed: Handed::new() }
    }

    pub fn send_entry(&mut self, entry: bytes::Bytes) -> (r: Result<(), SchedulerShutdownError>)
        ensures
            final(self).bank_id() == old(self).bank_id(),
            final(self).replay_sender() == old(self).replay_sender(),
            final(self).armed() == old(self).armed(),
            final(self).sent() == old(self).sent().push(
                (
                    ReplayToBlockVerificationMessage::Entry(EntryMessage { bank_id: old(self).bank_id(), entry }),
                    r is Ok,
                ),
            ),
    {
        let message = ReplayToBlockVerificationMessage::entry(self.bank_id, entry);
        self.send(message)
    }

    pub fn send_complete(&mut self) -> (r: Result<(), SchedulerShutdownError>)
        ensures
            final(self).bank_id() == old(self).bank_id(),
            final(self).replay_sender() == old(self).replay_sender(),
            final(self).armed() == old(self).armed(),
            final(self).sent() == old(self).sent().push(
                (ReplayToBlockVerificationMessage::Complete(CompleteMessage { bank_id: old(self).bank_id() }), r is Ok),
            ),
    {
        let message = ReplayToBlockVerificationMessage::complete(self.bank_id);
        self.send(message)
    }

    /// Sends `Abort` and disarms.
    pub fn send_abort(&mut self) -> (r: Result<(), SchedulerShutdownError>)
        ensures
            final(self).bank_id() == old(self).bank_id(),
            final(self).replay_sender() == old(self).replay_sender(),
            !final(self).armed(),
            final(self).sent() == old(self).sent().push(
                (ReplayToBlockVerificationMessage::Abort(AbortMessage { bank_id: old(self).bank_id() }), r is Ok),
            ),
        opens_invariants none
        no_unwind
    {
        self.armed = false;
        let message = ReplayToBlockVerificationMessage::abort(self.bank_id);
        self.send(message)
    }

    /// Stops `Abort` from being sent on drop.
    pub fn disarm(&mut self)
        ensures
            final(self).bank_id() == old(self).bank_id(),
            final(self).replay_sender() == old(self).replay_sender(),
            !final(self).armed(),
            final(self).sent() == old(self).sent(),
    {
        self.armed = false;
    }

    /// Hands `message` to the scheduler's channel; the result is `Ok` exactly
    /// when the channel took it.
    fn send(&mut self, message: ReplayToBlockVerificationMessage) -> (r: Result<(), SchedulerShutdownError>)
        ensures
            final(self).bank_id() == old(self).bank_id(),
            final(self).replay_sender() == old(self).replay_sender(),
            final(self).armed() == old(self).armed(),
            final(self).sent() == old(self).sent().push((message, r is Ok)),
        opens_invariants none
        no_unwind
    {
        scheduler_send_result(send_on(&self.replay_message_sender, message, &mut self.handed))
    }
}

impl Drop for AbortOnDropSender {
    /// An armed sender hands exactly one `Abort` for its bank to the scheduler
    /// (a failed send is ignored); a disarmed one sends nothing.
    fn drop(&mut self)
        ensures
            old(self).armed() ==> {
                &&& final(self).sent().len() == old(self).sent().len() + 1
                &&& final(self).sent().drop_last() == old(self).sent()
                &&& final(self).sent().last().0 == ReplayToBlockVerificationMessage::Abort(
                    AbortMessage { bank_id: old(self).bank_id() },
                )
                &&& !final(self).armed()
            },
            !old(self).armed() ==> final(self).sent() == old(self).sent(),
        opens_invariants none
        no_unwind
    {
        if self.armed {
            // An abort for a block the scheduler no longer tracks is ignored.
            let _ = self.send_abort();
        }
    }
}

} // verus!
