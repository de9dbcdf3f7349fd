//! Messages exchanged between replay and the block verification scheduler.

use crate::scheduler::BeginDecision;
use crate::utils::oneshot;
use solana_clock::{BankId, Slot};
use vstd::prelude::*;

verus! {

#[verifier::external_type_specification]
#[verifier::external_body]
pub struct ExHash(solana_hash::Hash);

#[verifier::external_type_specification]
#[verifier::external_body]
pub struct ExBytes(bytes::Bytes);

/// How the verification of a block ended.
#[derive(Debug, Clone, Copy, PartialEq, Eq, Structural)]
pub enum BlockVerificationOutcome {
    Completed,
    Aborted,
    VerificationFailed(BlockVerificationFailure),
}

/// Which check rejected a block.
#[derive(Debug, Clone, Copy, PartialEq, Eq, Structural)]
pub enum BlockVerificationFailure {
    SignatureVerificationFailure,
    EntryHashVerificationFailure,
}

pub enum ReplayToBlockVerificationMessage {
    Begin(BeginMessage),
    Entry(EntryMessage),
    Complete(CompleteMessage),
    Abort(AbortMessage),
}

pub struct BeginMessage {
    pub bank_id: BankId,
    pub parent_bank_last_entry_hash: solana_hash::Hash,
    pub slot: Slot,
    pub begin_message_response_sender: oneshot::OneshotSender<BeginMessageResponse>,
}

pub enum BeginMessageResponse {
    Success { verification_receiver: oneshot::OneshotReceiver<BlockVerificationOutcome> },
    BankIdOccupied,
    SlotIdOccupied,
}

/// One entry of a block, as the serialized bytes replay read it from.
pub struct EntryMessage {
    pub bank_id: BankId,
    pub entry: bytes::Bytes,
}

pub struct CompleteMessage {
    pub bank_id: BankId,
}

pub struct AbortMessage {
    pub bank_id: BankId,
}

/// What a replay message asks of the scheduler, as plain values.
pub enum ReplayEvent {
    Begin { bank_id: u64, slot: u64 },
    Entry { bank_id: u64 },
    Complete { bank_id: u64 },
    Abort { bank_id: u64 },
}

impl BeginMessageResponse {
    /// Which decision this answer reports.
    pub open spec fn spec_decision(&self) -> BeginDecision {
        match self {
            BeginMessageResponse::Success { .. } => BeginDecision::Accept,
            BeginMessageResponse::BankIdOccupied => BeginDecision::BankIdOccupied,
            BeginMessageResponse::SlotIdOccupied => BeginDecision::SlotIdOccupied,
        }
    }

    pub fn decision(&self) -> (d: BeginDecision)
        ensures
            d == self.spec_decision(),
    {
        match self {
            BeginMessageResponse::Success { .. } => BeginDecision::Accept,
            BeginMessageResponse::BankIdOccupied => BeginDecision::BankIdOccupied,
            BeginMessageResponse::SlotIdOccupied => BeginDecision::SlotIdOccupied,
        }
    }

    /// The answer that reports `decision`; an acceptance hands over the
    /// receiver of the block's outcome.
    pub fn for_decision(
        decision: BeginDecision,
        verification_receiver: Option<oneshot::OneshotReceiver<BlockVerificationOutcome>>,
    ) -> (r: Self)
        requires
            (decision == BeginDecision::Accept) == verification_receiver.is_some(),
        ensures
            r.spec_decision() == decision,
            verification_receiver matches Some(receiver) ==> r == (BeginMessageResponse::Success {
                verification_receiver: receiver,
            }),
    {
        match verification_receiver {
            Some(verification_receiver) => BeginMessageResponse::Success { verification_receiver },
            None => match decision {
                BeginDecision::BankIdOccupied => BeginMessageResponse::BankIdOccupied,
                _ => BeginMessageResponse::SlotIdOccupied,
            },
        }
    }
}

impl ReplayToBlockVerificationMessage {
    /// Asks to begin verifying the block of `bank_id` at `slot`; the answer
    /// comes back on `begin_message_response_sender`.
    pub fn begin(
        bank_id: BankId,
        slot: Slot,
        parent_bank_last_entry_hash: solana_hash::Hash,
        begin_message_response_sender: oneshot::OneshotSender<BeginMessageResponse>,
    ) -> (m: Self)
        ensures
            m.event() == (ReplayEvent::Begin { bank_id, slot }),
            m matches ReplayToBlockVerificationMessage::Begin(b) && b.begin_message_response_sender
                == begin_message_response_sender && b.parent_bank_last_entry_hash
                == parent_bank_last_entry_hash,
    {
        ReplayToBlockVerificationMessage::Begin(
            BeginMessage { bank_id, parent_bank_last_entry_hash, slot, begin_message_response_sender },
        )
    }

    /// Hands one entry of the block of `bank_id` to the scheduler.
    pub fn entry(bank_id: BankId, entry: bytes::Bytes) -> (m: Self)
        ensures
            m == ReplayToBlockVerificationMessage::Entry(EntryMessage { bank_id, entry }),
            m.event() == (ReplayEvent::Entry { bank_id }),
    {
        ReplayToBlockVerificationMessage::Entry(EntryMessage { bank_id, entry })
    }

    /// Tells the scheduler that every entry of the block of `bank_id` was submitted.
    pub fn complete(bank_id: BankId) -> (m: Self)
        ensures
            m == ReplayToBlockVerificationMessage::Complete(CompleteMessage { bank_id }),
            m.event() == (ReplayEvent::Complete { bank_id }),
    {
        ReplayToBlockVerificationMessage::Complete(CompleteMessage { bank_id })
    }

    /// Asks the scheduler to abort the block of `bank_id`.
    pub fn abort(bank_id: BankId) -> (m: Self)
        ensures
            m == ReplayToBlockVerificationMessage::Abort(AbortMessage { bank_id }),
            m.event() == (ReplayEvent::Abort { bank_id }),
        opens_invariants none
        no_unwind
    {
        ReplayToBlockVerificationMessage::Abort(AbortMessage { bank_id })
    }

    pub open spec fn event(&self) -> ReplayEvent {
        match self {
            ReplayToBlockVerificationMessage::Begin(m) => ReplayEvent::Begin { bank_id: m.bank_id, slot: m.slot },
            ReplayToBlockVerificationMessage::Entry(m) => ReplayEvent::Entry { bank_id: m.bank_id },
            ReplayToBlockVerificationMessage::Complete(m) => ReplayEvent::Complete { bank_id: m.bank_id },
            ReplayToBlockVerificationMessage::Abort(m) => ReplayEvent::Abort { bank_id: m.bank_id },
        }
    }
}

} // verus!
