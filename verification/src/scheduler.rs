//! The block verification scheduler: the blocks it is verifying and how each
//! replay message changes them.

use crate::channel::{bounded_channel, channel_capacity_supported, receive_with_timeout, Handed, Observed, TimedReceive};
use crate::config::SchedulerConfig;
use crate::messages::{
    AbortMessage, BeginMessage, BeginMessageResponse, BlockVerificationOutcome, CompleteMessage,
    EntryMessage, ReplayEvent, ReplayToBlockVerificationMessage,
};
use crate::stage::BlockVerificationStage;
use crate::utils::cancellation_token::{CancellationToken, CancellationTokenRef};
use crate::utils::oneshot::{self, OneshotSender};
use crate::verification_components::{VerifyEntryHash, VerifySignature};
use solana_clock::{BankId, Slot};
use vstd::prelude::*;

verus! {

/// How long the event loop waits for a replay message before checking for shutdown.
pub const SHUTDOWN_POLL_INTERVAL_MILLIS: u64 = 100;

/// Progress of the verification of one block.
pub struct BlockVerificationStatus {
    pub replay_marked_as_completed: bool,
    pub sig_verify_operations_in_progress: u64,
    pub entry_hash_verification_operations_in_progress: u64,
}

impl BlockVerificationStatus {
    /// Replay has submitted every entry and no verification work is outstanding.
    pub open spec fn completed(&self) -> bool {
        &&& self.sig_verify_operations_in_progress == 0
        &&& self.entry_hash_verification_operations_in_progress == 0
        &&& self.replay_marked_as_completed
    }

    /// The status of a block that was just registered.
    pub open spec fn initial() -> BlockVerificationStatus {
        BlockVerificationStatus {
            replay_marked_as_completed: false,
            sig_verify_operations_in_progress: 0,
            entry_hash_verification_operations_in_progress: 0,
        }
    }

    pub fn is_completed(&self) -> (r: bool)
        ensures
            r == self.completed(),
    {
        self.sig_verify_operations_in_progress == 0
            && self.entry_hash_verification_operations_in_progress == 0
            && self.replay_marked_as_completed
    }
}

impl Default for BlockVerificationStatus {
    fn default() -> (r: Self)
        ensures
            r == BlockVerificationStatus::initial(),
    {
        BlockVerificationStatus {
            replay_marked_as_completed: false,
            sig_verify_operations_in_progress: 0,
            entry_hash_verification_operations_in_progress: 0,
        }
    }
}

/// A block in progress, as the scheduler's decisions see it.
pub struct BlockSummary {
    pub bank_id: u64,
    pub slot: u64,
    pub status: BlockVerificationStatus,
}

/// A block that has just been registered for `bank_id` at `slot`.
pub open spec fn fresh_block(bank_id: u64, slot: u64) -> BlockSummary {
    BlockSummary { bank_id, slot, status: BlockVerificationStatus::initial() }
}

pub open spec fn bank_in_use(blocks: Seq<BlockSummary>, bank_id: u64) -> bool {
    exists|i: int| 0 <= i < blocks.len() && #[trigger] blocks[i].bank_id == bank_id
}

pub open spec fn slot_in_use(blocks: Seq<BlockSummary>, slot: u64) -> bool {
    exists|i: int| 0 <= i < blocks.len() && #[trigger] blocks[i].slot == slot
}

/// No two blocks in progress share a bank id, and no two share a slot.
pub open spec fn blocks_wf(blocks: Seq<BlockSummary>) -> bool {
    forall|i: int, j: int|
        #![trigger blocks[i], blocks[j]]
        0 <= i < blocks.len() && 0 <= j < blocks.len() && i != j ==> {
            &&& blocks[i].bank_id != blocks[j].bank_id
            &&& blocks[i].slot != blocks[j].slot
        }
}

/// Where the block for `bank_id` stands, or -1 if there is none.
pub open spec fn bank_index(blocks: Seq<BlockSummary>, bank_id: u64) -> int {
    if bank_in_use(blocks, bank_id) {
        choose|i: int| 0 <= i < blocks.len() && #[trigger] blocks[i].bank_id == bank_id
    } else {
        -1
    }
}

/// The answer to a request to begin verifying a block.
#[derive(Debug, Clone, Copy, PartialEq, Eq, Structural)]
pub enum BeginDecision {
    Accept,
    BankIdOccupied,
    SlotIdOccupied,
}

pub open spec fn begin_decision(blocks: Seq<BlockSummary>, bank_id: u64, slot: u64) -> BeginDecision {
    if bank_in_use(blocks, bank_id) {
        BeginDecision::BankIdOccupied
    } else if slot_in_use(blocks, slot) {
        BeginDecision::SlotIdOccupied
    } else {
        BeginDecision::Accept
    }
}

/// The blocks after an abort for `bank_id`: its block, if any, is gone.
pub open spec fn blocks_after_abort(blocks: Seq<BlockSummary>, bank_id: u64) -> Seq<BlockSummary> {
    if bank_in_use(blocks, bank_id) {
        blocks.remove(bank_index(blocks, bank_id))
    } else {
        blocks
    }
}

/// The status of a block once replay has marked it completed.
pub open spec fn marked_completed(block: BlockSummary) -> BlockSummary {
    BlockSummary {
        bank_id: block.bank_id,
        slot: block.slot,
        status: BlockVerificationStatus {
            replay_marked_as_completed: true,
            sig_verify_operations_in_progress: block.status.sig_verify_operations_in_progress,
            entry_hash_verification_operations_in_progress: block.status.entry_hash_verification_operations_in_progress,
        },
    }
}

/// The blocks after replay marks `bank_id` completed: the block is marked, and
/// it is finished (removed) if no verification work is outstanding.
pub open spec fn blocks_after_complete(blocks: Seq<BlockSummary>, bank_id: u64) -> Seq<BlockSummary> {
    if bank_in_use(blocks, bank_id) {
        let i = bank_index(blocks, bank_id);
        let marked = marked_completed(blocks[i]);
        if marked.status.completed() {
            blocks.remove(i)
        } else {
            blocks.update(i, marked)
        }
    } else {
        blocks
    }
}

/// What the scheduler hands to replay while it handles one message.
#[derive(Debug, Clone, Copy, PartialEq, Eq, Structural)]
pub enum SchedulerAction {
    /// Nothing is sent.
    Nothing,
    /// The answer to a begin request, and whether replay received it.
    Answered { decision: BeginDecision, delivered: bool },
    /// The outcome handed to the waiter of the block of `bank_id`, which is done.
    Notified { bank_id: u64, outcome: BlockVerificationOutcome },
}

/// The answer that `action` hands to a begin request, if any.
pub open spec fn answers_of(action: SchedulerAction) -> Seq<(BeginDecision, bool)> {
    match action {
        SchedulerAction::Answered { decision, delivered } => seq![(decision, delivered)],
        _ => Seq::empty(),
    }
}

/// The outcome that `action` hands to a block's waiter, if any.
pub open spec fn outcomes_of(action: SchedulerAction) -> Seq<BlockVerificationOutcome> {
    match action {
        SchedulerAction::Notified { bank_id, outcome } => seq![outcome],
        _ => Seq::empty(),
    }
}

/// What an abort for `bank_id` sends: the block's waiter is told it was aborted.
pub open spec fn abort_action(blocks: Seq<BlockSummary>, bank_id: u64) -> SchedulerAction {
    if bank_in_use(blocks, bank_id) {
        SchedulerAction::Notified { bank_id, outcome: BlockVerificationOutcome::Aborted }
    } else {
        SchedulerAction::Nothing
    }
}

/// What a completion for `bank_id` sends: if it finishes the block, the block's
/// waiter is told it completed.
pub open spec fn complete_action(blocks: Seq<BlockSummary>, bank_id: u64) -> SchedulerAction {
    if bank_in_use(blocks, bank_id) && marked_completed(blocks[bank_index(blocks, bank_id)]).status.completed() {
        SchedulerAction::Notified { bank_id, outcome: BlockVerificationOutcome::Completed }
    } else {
        SchedulerAction::Nothing
    }
}

/// How one replay event changes the blocks in progress and what the scheduler
/// sends for it. A begin is answered with the decision; an accepted block is
/// registered exactly when replay received the answer.
pub open spec fn scheduler_step(
    old: Seq<BlockSummary>,
    event: ReplayEvent,
    new: Seq<BlockSummary>,
    action: SchedulerAction,
) -> bool {
    match event {
        ReplayEvent::Begin { bank_id, slot } => {
            &&& action matches SchedulerAction::Answered { decision, delivered }
            &&& decision == begin_decision(old, bank_id, slot)
            &&& new == if decision == BeginDecision::Accept && delivered {
                old.push(fresh_block(bank_id, slot))
            } else {
                old
            }
        },
        ReplayEvent::Entry { bank_id } => new == old && action == SchedulerAction::Nothing,
        ReplayEvent::Complete { bank_id } => {
            &&& new == blocks_after_complete(old, bank_id)
            &&& action == complete_action(old, bank_id)
        },
        ReplayEvent::Abort { bank_id } => {
            &&& new == blocks_after_abort(old, bank_id)
            &&& action == abort_action(old, bank_id)
        },
    }
}

/// What one turn of the event loop observed.
pub enum EventLoopTurn {
    /// The shutdown flag was raised.
    ShutdownRequested,
    /// The flag was not raised, and the wait for a replay message ended so.
    Waited(TimedReceive<ReplayToBlockVerificationMessage>),
}

/// The scheduler's bookkeeping for one block.
pub struct BlockVerificationState {
    bank_id: BankId,
    parent_bank_last_entry_hash: solana_hash::Hash,
    slot: Slot,
    oneshot_response_sender: OneshotSender<BlockVerificationOutcome>,
    progress_tracker: BlockVerificationStatus,
    cancellation_token: CancellationToken,
}

impl BlockVerificationState {
    pub closed spec fn summary(&self) -> BlockSummary {
        BlockSummary {
            bank_id: self.bank_id,
            slot: self.slot,
            status: self.progress_tracker,
        }
    }

    pub fn new(
        bank_id: BankId,
        parent_bank_last_entry_hash: solana_hash::Hash,
        slot: Slot,
        oneshot_response_sender: OneshotSender<BlockVerificationOutcome>,
    ) -> (r: Self)
        ensures
            r.summary() == fresh_block(bank_id, slot),
    {
        BlockVerificationState {
            bank_id,
            parent_bank_last_entry_hash,
            slot,
            oneshot_response_sender,
            progress_tracker: BlockVerificationStatus::default(),
            cancellation_token: CancellationToken::new(),
        }
    }
}

pub open spec fn summaries(states: Seq<BlockVerificationState>) -> Seq<BlockSummary> {
    states.map_values(|s: BlockVerificationState| s.summary())
}

/// The scheduler: the replay messages it receives, the shutdown flag it polls,
/// and the blocks it is verifying.
pub struct BlockVerificationScheduler<S, E> {
    replay_message_receiver: crossbeam_channel::Receiver<ReplayToBlockVerificationMessage>,
    shutdown_token_ref: CancellationTokenRef,
    blocks_in_progress: Vec<BlockVerificationState>,
    signature_verifier: S,
    entry_hash_verifier: E,
    /// The capacity the replay channel was built with.
    replay_channel_capacity: usize,
    /// The answers handed to begin requests' response channels.
    answers_handed: Handed<BeginMessageResponse>,
    /// The outcomes handed to finished blocks' waiters.
    outcomes_handed: Handed<BlockVerificationOutcome>,
    /// What each reading of the shutdown flag returned.
    flag_readings: Observed<bool>,
}

impl<S, E> BlockVerificationScheduler<S, E> {
    /// No two blocks in progress share a bank id, and no two share a slot.
    #[verifier::type_invariant]
    closed spec fn blocks_are_distinct(&self) -> bool {
        blocks_wf(summaries(self.blocks_in_progress@))
    }
}

impl<S: VerifySignature, E: VerifyEntryHash> BlockVerificationScheduler<S, E> {
    /// The blocks in progress, oldest first.
    pub closed spec fn blocks(&self) -> Seq<BlockSummary> {
        summaries(self.blocks_in_progress@)
    }

    pub closed spec fn shutdown_flag(&self) -> std::sync::Arc<std::sync::atomic::AtomicBool> {
        self.shutdown_token_ref.flag()
    }

    pub open spec fn wf(&self) -> bool {
        blocks_wf(self.blocks())
    }

    /// How many messages the replay channel buffers.
    pub closed spec fn replay_channel_capacity(&self) -> usize {
        self.replay_channel_capacity
    }

    /// The answers handed to begin requests so far, in order: the decision each
    /// reports, and whether replay received it.
    pub closed spec fn answers_sent(&self) -> Seq<(BeginDecision, bool)> {
        self.answers_handed.values().map_values(
            |handed: (BeginMessageResponse, bool)| (handed.0.spec_decision(), handed.1),
        )
    }

    /// What each reading of the shutdown flag returned so far, in order.
    pub closed spec fn flag_readings(&self) -> Seq<bool> {
        self.flag_readings.values()
    }

    /// The outcomes handed to the waiters of finished blocks so far, in order.
    pub closed spec fn outcomes_sent(&self) -> Seq<BlockVerificationOutcome> {
        self.outcomes_handed.values().map_values(|handed: (BlockVerificationOutcome, bool)| handed.0)
    }

    /// The scheduler went from `old` to `new` by handling `event`: the blocks
    /// changed as `scheduler_step` says, and exactly the answer or outcome that
    /// `action` names was handed over.
    pub open spec fn handled(old: Self, event: ReplayEvent, new: Self, action: SchedulerAction) -> bool {
        &&& scheduler_step(old.blocks(), event, new.blocks(), action)
        &&& new.answers_sent() == old.answers_sent() + answers_of(action)
        &&& new.outcomes_sent() == old.outcomes_sent() + outcomes_of(action)
        &&& new.replay_channel_capacity() == old.replay_channel_capacity()
    }

    /// Nothing changed: the same blocks, and nothing handed over.
    pub open spec fn unchanged(old: Self, new: Self) -> bool {
        &&& new.blocks() == old.blocks()
        &&& new.answers_sent() == old.answers_sent()
        &&& new.outcomes_sent() == old.outcomes_sent()
        &&& new.replay_channel_capacity() == old.replay_channel_capacity()
    }

    /// What one wait for a replay message does: a received message is handled
    /// and the loop goes on; a timeout changes nothing and the loop goes on;
    /// once every replay sender is gone the loop ends.
    pub open spec fn after_wait(
        old: Self,
        received: TimedReceive<ReplayToBlockVerificationMessage>,
        new: Self,
        keep_running: bool,
    ) -> bool {
        match received {
            TimedReceive::Received(message) => keep_running && exists|action: SchedulerAction|
                Self::handled(old, message.event(), new, action),
            TimedReceive::TimedOut => keep_running && Self::unchanged(old, new),
            TimedReceive::Disconnected => !keep_running && Self::unchanged(old, new),
        }
    }

    /// What replay gets back when the scheduler handles an event: a begin is
    /// answered with the scheduler's decision (`BankIdOccupied` when the bank id
    /// is in use, else `SlotIdOccupied` when the slot is, else an acceptance);
    /// an abort tells the waiter of the block it ends `Aborted`; a completion
    /// that finishes a block tells its waiter `Completed`; nothing else is sent.
    pub proof fn lemma_replay_gets_back(old: Self, event: ReplayEvent, new: Self, action: SchedulerAction)
        requires
            Self::handled(old, event, new, action),
        ensures
            event matches ReplayEvent::Begin { bank_id, slot } ==> {
                &&& new.outcomes_sent() == old.outcomes_sent()
                &&& new.answers_sent().len() == old.answers_sent().len() + 1
                &&& new.answers_sent().drop_last() == old.answers_sent()
                &&& new.answers_sent().last().0 == begin_decision(old.blocks(), bank_id, slot)
            },
            event matches ReplayEvent::Entry { .. } ==> {
                &&& new.answers_sent() == old.answers_sent()
                &&& new.outcomes_sent() == old.outcomes_sent()
            },
            event matches ReplayEvent::Abort { bank_id } ==> {
                &&& new.answers_sent() == old.answers_sent()
                &&& new.outcomes_sent() == if bank_in_use(old.blocks(), bank_id) {
                    old.outcomes_sent().push(BlockVerificationOutcome::Aborted)
                } else {
                    old.outcomes_sent()
                }
            },
            event matches ReplayEvent::Complete { bank_id } ==> {
                &&& new.answers_sent() == old.answers_sent()
                &&& new.outcomes_sent() == if bank_in_use(old.blocks(), bank_id) && marked_completed(
                    old.blocks()[bank_index(old.blocks(), bank_id)],
                ).status.completed() {
                    old.outcomes_sent().push(BlockVerificationOutcome::Completed)
                } else {
                    old.outcomes_sent()
                }
            },
    {
        match event {
            ReplayEvent::Begin { bank_id, slot } => {
                assert(new.outcomes_sent() =~= old.outcomes_sent());
                assert(new.answers_sent().drop_last() =~= old.answers_sent());
            },
            ReplayEvent::Entry { .. } => {
                assert(new.answers_sent() =~= old.answers_sent());
                assert(new.outcomes_sent() =~= old.outcomes_sent());
            },
            ReplayEvent::Abort { bank_id } => {
                assert(new.answers_sent() =~= old.answers_sent());
                if bank_in_use(old.blocks(), bank_id) {
                    assert(new.outcomes_sent() =~= old.outcomes_sent().push(BlockVerificationOutcome::Aborted));
                } else {
                    assert(new.outcomes_sent() =~= old.outcomes_sent());
                }
            },
            ReplayEvent::Complete { bank_id } => {
                assert(new.answers_sent() =~= old.answers_sent());
                if action is Notified {
                    assert(new.outcomes_sent() =~= old.outcomes_sent().push(BlockVerificationOutcome::Completed));
                } else {
                    assert(new.outcomes_sent() =~= old.outcomes_sent());
                }
            },
        }
    }

    /// Handling a completion or an abort for `bank_id` touches no other block:
    /// an abort, or a completion of a block with no verification work
    /// outstanding, removes exactly the block of `bank_id` and keeps every other
    /// block in order; a completion of a block with work outstanding keeps every
    /// block, that one marked completed; with no block for `bank_id`, the blocks
    /// stay as they are.
    pub proof fn lemma_only_the_named_block_changes(old: Self, event: ReplayEvent, new: Self, action: SchedulerAction)
        requires
            old.wf(),
            Self::handled(old, event, new, action),
        ensures
            event matches ReplayEvent::Abort { bank_id } ==> {
                &&& !bank_in_use(old.blocks(), bank_id) ==> new.blocks() == old.blocks()
                &&& forall|i: int|
                    0 <= i < old.blocks().len() && #[trigger] old.blocks()[i].bank_id == bank_id
                        ==> new.blocks() == old.blocks().remove(i)
            },
            event matches ReplayEvent::Complete { bank_id } ==> {
                &&& !bank_in_use(old.blocks(), bank_id) ==> new.blocks() == old.blocks()
                &&& forall|i: int|
                    0 <= i < old.blocks().len() && #[trigger] old.blocks()[i].bank_id == bank_id ==> {
                        let status = old.blocks()[i].status;
                        let idle = status.sig_verify_operations_in_progress == 0
                            && status.entry_hash_verification_operations_in_progress == 0;
                        &&& idle ==> new.blocks() == old.blocks().remove(i)
                        &&& !idle ==> new.blocks() == old.blocks().update(
                            i,
                            BlockSummary {
                                bank_id: old.blocks()[i].bank_id,
                                slot: old.blocks()[i].slot,
                                status: BlockVerificationStatus {
                                    replay_marked_as_completed: true,
                                    sig_verify_operations_in_progress: status.sig_verify_operations_in_progress,
                                    entry_hash_verification_operations_in_progress: status.entry_hash_verification_operations_in_progress,
                                },
                            },
                        )
                    }
            },
    {
        match event {
            ReplayEvent::Abort { bank_id } => lemma_abort_removes_only_its_block(old.blocks(), bank_id),
            ReplayEvent::Complete { bank_id } => lemma_complete_removes_only_its_block(old.blocks(), bank_id),
            _ => {},
        }
    }

    /// Builds a scheduler with no block in progress, and the stage through which
    /// replay talks to it. Dropping or shutting down the stage raises the flag
    /// that the scheduler polls.
    pub fn create(scheduler_config: SchedulerConfig, signature_verifier: S, entry_hash_verifier: E) -> (r: (
        Self,
        BlockVerificationStage,
    ))
        requires
            channel_capacity_supported::<ReplayToBlockVerificationMessage>(
                scheduler_config.replay_to_block_verification_channel_size as int,
            ),
        ensures
            r.0.wf(),
            r.0.blocks() == Seq::<BlockSummary>::empty(),
            r.0.answers_sent() == Seq::<(BeginDecision, bool)>::empty(),
            r.0.outcomes_sent() == Seq::<BlockVerificationOutcome>::empty(),
            r.0.flag_readings() == Seq::<bool>::empty(),
            r.0.replay_channel_capacity() == scheduler_config.replay_to_block_verification_channel_size,
            r.1.shutdown_flag() == r.0.shutdown_flag(),
    {
        let replay_channel = bounded_channel(scheduler_config.replay_to_block_verification_channel_size);
        let shutdown_token = CancellationToken::new();
        let scheduler = BlockVerificationScheduler {
            replay_message_receiver: replay_channel.receiver,
            shutdown_token_ref: shutdown_token.token_ref(),
            blocks_in_progress: Vec::new(),
            signature_verifier,
            entry_hash_verifier,
            replay_channel_capacity: replay_channel.capacity,
            answers_handed: Handed::new(),
            outcomes_handed: Handed::new(),
            flag_readings: Observed::new(),
        };
        proof {
            assert(scheduler.blocks() =~= Seq::<BlockSummary>::empty());
            assert(scheduler.answers_sent() =~= Seq::<(BeginDecision, bool)>::empty());
            assert(scheduler.outcomes_sent() =~= Seq::<BlockVerificationOutcome>::empty());
        }
        let stage = BlockVerificationStage::new(replay_channel.sender, shutdown_token);
        (scheduler, stage)
    }
}


pub proof fn lemma_bank_index_is(blocks: Seq<BlockSummary>, bank_id: u64, i: int)
    requires
        blocks_wf(blocks),
        0 <= i < blocks.len(),
        blocks[i].bank_id == bank_id,
    ensures
        bank_in_use(blocks, bank_id),
        bank_index(blocks, bank_id) == i,
{
    assert(bank_in_use(blocks, bank_id));
    let j = bank_index(blocks, bank_id);
    assert(0 <= j < blocks.len() && blocks[j].bank_id == bank_id);
    if j != i {
        assert(blocks[i].bank_id != blocks[j].bank_id);
    }
}

proof fn lemma_bank_index_bounds(blocks: Seq<BlockSummary>, bank_id: u64)
    requires
        bank_in_use(blocks, bank_id),
    ensures
        0 <= bank_index(blocks, bank_id) < blocks.len(),
        blocks[bank_index(blocks, bank_id)].bank_id == bank_id,
{
}

proof fn lemma_wf_remove(blocks: Seq<BlockSummary>, i: int)
    requires
        blocks_wf(blocks),
        0 <= i < blocks.len(),
    ensures
        blocks_wf(blocks.remove(i)),
{
    blocks.remove_ensures(i);
    let r = blocks.remove(i);
    assert forall|a: int, b: int|
        #![trigger r[a], r[b]]
        0 <= a < r.len() && 0 <= b < r.len() && a != b implies r[a].bank_id != r[b].bank_id
            && r[a].slot != r[b].slot by {
        let a2 = if a < i { a } else { a + 1 };
        let b2 = if b < i { b } else { b + 1 };
        assert(r[a] == blocks[a2]);
        assert(r[b] == blocks[b2]);
        assert(blocks[a2].bank_id != blocks[b2].bank_id);
    }
}

proof fn lemma_wf_push(blocks: Seq<BlockSummary>, block: BlockSummary)
    requires
        blocks_wf(blocks),
        !bank_in_use(blocks, block.bank_id),
        !slot_in_use(blocks, block.slot),
    ensures
        blocks_wf(blocks.push(block)),
{
    let r = blocks.push(block);
    assert forall|a: int, b: int|
        #![trigger r[a], r[b]]
        0 <= a < r.len() && 0 <= b < r.len() && a != b implies r[a].bank_id != r[b].bank_id
            && r[a].slot != r[b].slot by {
        if a < blocks.len() && b < blocks.len() {
            assert(r[a] == blocks[a] && r[b] == blocks[b]);
        } else if a < blocks.len() {
            assert(r[a] == blocks[a]);
            assert(blocks[a].bank_id != block.bank_id);
            assert(blocks[a].slot != block.slot);
        } else {
            assert(r[b] == blocks[b]);
            assert(blocks[b].bank_id != block.bank_id);
            assert(blocks[b].slot != block.slot);
        }
    }
}

proof fn lemma_wf_mark(blocks: Seq<BlockSummary>, i: int)
    requires
        blocks_wf(blocks),
        0 <= i < blocks.len(),
    ensures
        blocks_wf(blocks.update(i, marked_completed(blocks[i]))),
{
    let r = blocks.update(i, marked_completed(blocks[i]));
    assert forall|a: int, b: int|
        #![trigger r[a], r[b]]
        0 <= a < r.len() && 0 <= b < r.len() && a != b implies r[a].bank_id != r[b].bank_id
            && r[a].slot != r[b].slot by {
        assert(r[a].bank_id == blocks[a].bank_id && r[a].slot == blocks[a].slot);
        assert(r[b].bank_id == blocks[b].bank_id && r[b].slot == blocks[b].slot);
    }
}

impl<S: VerifySignature, E: VerifyEntryHash> BlockVerificationScheduler<S, E> {
    /// Everything but the blocks in progress is as it was.
    pub open spec fn same_but_blocks(old: Self, new: Self) -> bool {
        &&& new.answers_sent() == old.answers_sent()
        &&& new.outcomes_sent() == old.outcomes_sent()
        &&& new.replay_channel_capacity() == old.replay_channel_capacity()
        &&& new.shutdown_flag() == old.shutdown_flag()
        &&& new.flag_readings() == old.flag_readings()
    }

    /// Moves the blocks in progress out, leaving none behind.
    fn take_blocks(&mut self) -> (blocks: Vec<BlockVerificationState>)
        ensures
            summaries(blocks@) == old(self).blocks(),
            final(self).blocks() == Seq::<BlockSummary>::empty(),
            Self::same_but_blocks(*old(self), *final(self)),
    {
        let mut blocks = Vec::new();
        std::mem::swap(&mut blocks, &mut self.blocks_in_progress);
        proof {
            assert(self.blocks() =~= Seq::<BlockSummary>::empty());
        }
        blocks
    }

    /// Where the block for `bank_id` stands among the blocks in progress.
    fn position_of_bank(&self, bank_id: BankId) -> (r: Option<usize>)
        ensures
            r is None <==> !bank_in_use(self.blocks(), bank_id),
            r matches Some(i) ==> i == bank_index(self.blocks(), bank_id) && i < self.blocks().len(),
    {
        proof {
            use_type_invariant(&*self);
        }
        let mut i: usize = 0;
        while i < self.blocks_in_progress.len()
            invariant
                self.wf(),
                i <= self.blocks_in_progress@.len(),
                self.blocks().len() == self.blocks_in_progress@.len(),
                forall|k: int| 0 <= k < i ==> #[trigger] self.blocks()[k].bank_id != bank_id,
            decreases self.blocks_in_progress@.len() - i,
        {
            assert(self.blocks()[i as int] == self.blocks_in_progress@[i as int].summary());
            if self.blocks_in_progress[i].bank_id == bank_id {
                proof {
                    lemma_bank_index_is(self.blocks(), bank_id, i as int);
                }
                return Some(i);
            }
            i = i + 1;
        }
        None
    }

    /// Whether a block in progress is at `slot`.
    fn slot_is_in_use(&self, slot: Slot) -> (r: bool)
        ensures
            r == slot_in_use(self.blocks(), slot),
    {
        proof {
            use_type_invariant(&*self);
        }
        let mut i: usize = 0;
        while i < self.blocks_in_progress.len()
            invariant
                i <= self.blocks_in_progress@.len(),
                self.blocks().len() == self.blocks_in_progress@.len(),
                forall|k: int| 0 <= k < i ==> #[trigger] self.blocks()[k].slot != slot,
            decreases self.blocks_in_progress@.len() - i,
        {
            assert(self.blocks()[i as int] == self.blocks_in_progress@[i as int].summary());
            if self.blocks_in_progress[i].slot == slot {
                assert(self.blocks()[i as int].slot == slot);
                return true;
            }
            i = i + 1;
        }
        false
    }

    /// Whether a block in progress belongs to `bank_id`.
    fn bank_id_is_in_use(&self, bank_id: BankId) -> (r: bool)
        ensures
            r == bank_in_use(self.blocks(), bank_id),
    {
        proof {
            use_type_invariant(&*self);
        }
        let mut i: usize = 0;
        while i < self.blocks_in_progress.len()
            invariant
                i <= self.blocks_in_progress@.len(),
                self.blocks().len() == self.blocks_in_progress@.len(),
                forall|k: int| 0 <= k < i ==> #[trigger] self.blocks()[k].bank_id != bank_id,
            decreases self.blocks_in_progress@.len() - i,
        {
            assert(self.blocks()[i as int] == self.blocks_in_progress@[i as int].summary());
            if self.blocks_in_progress[i].bank_id == bank_id {
                assert(self.blocks()[i as int].bank_id == bank_id);
                return true;
            }
            i = i + 1;
        }
        false
    }

    /// How a request to begin verifying `bank_id` at `slot` is answered.
    pub fn decide_begin(&self, bank_id: BankId, slot: Slot) -> (d: BeginDecision)
        ensures
            d == begin_decision(self.blocks(), bank_id, slot),
    {
        proof {
            use_type_invariant(&*self);
        }
        if self.bank_id_is_in_use(bank_id) {
            BeginDecision::BankIdOccupied
        } else if self.slot_is_in_use(slot) {
            BeginDecision::SlotIdOccupied
        } else {
            BeginDecision::Accept
        }
    }

    /// Hands `answer` to a begin request's response channel. Returns whether
    /// replay received it.
    fn send_answer(&mut self, sender: OneshotSender<BeginMessageResponse>, answer: BeginMessageResponse) -> (delivered:
        bool)
        ensures
            final(self).answers_sent() == old(self).answers_sent().push((answer.spec_decision(), delivered)),
            final(self).outcomes_sent() == old(self).outcomes_sent(),
            final(self).blocks() == old(self).blocks(),
            final(self).replay_channel_capacity() == old(self).replay_channel_capacity(),
            final(self).shutdown_flag() == old(self).shutdown_flag(),
            final(self).flag_readings() == old(self).flag_readings(),
    {
        proof {
            use_type_invariant(&*self);
        }
        let ghost handed = answer;
        let sent = sender.send_recorded(answer, &mut self.answers_handed);
        let delivered = sent.is_ok();
        proof {
            let f = |h: (BeginMessageResponse, bool)| (h.0.spec_decision(), h.1);
            let before = old(self).answers_handed.values();
            assert(before.push((handed, delivered)).map_values(f) =~= before.map_values(f).push(
                (handed.spec_decision(), delivered),
            ));
        }
        delivered
    }

    /// Answers a begin request with the scheduler's decision, and registers the
    /// block when it is accepted and replay received the answer. Returns the
    /// answer given and whether it was delivered.
    pub fn handle_begin_message(&mut self, begin_message: BeginMessage) -> (action: SchedulerAction)
        ensures
            final(self).wf(),
            Self::handled(
                *old(self),
                ReplayEvent::Begin { bank_id: begin_message.bank_id, slot: begin_message.slot },
                *final(self),
                action,
            ),
            final(self).flag_readings() == old(self).flag_readings(),
    {
        proof {
            use_type_invariant(&*self);
        }
        let BeginMessage { bank_id, parent_bank_last_entry_hash, slot, begin_message_response_sender } =
            begin_message;
        let decision = self.decide_begin(bank_id, slot);
        if decision == BeginDecision::Accept {
            let (verification_sender, verification_receiver) = oneshot::channel();
            let answer = BeginMessageResponse::for_decision(decision, Some(verification_receiver));
            let delivered = self.send_answer(begin_message_response_sender, answer);
            let state = BlockVerificationState::new(bank_id, parent_bank_last_entry_hash, slot, verification_sender);
            self.register_block(delivered, state);
            let action = SchedulerAction::Answered { decision, delivered };
            proof {
                assert(self.answers_sent() =~= old(self).answers_sent() + answers_of(action));
                assert(self.outcomes_sent() =~= old(self).outcomes_sent() + outcomes_of(action));
            }
            action
        } else {
            let answer = BeginMessageResponse::for_decision(decision, None);
            let delivered = self.send_answer(begin_message_response_sender, answer);
            let action = SchedulerAction::Answered { decision, delivered };
            proof {
                assert(self.answers_sent() =~= old(self).answers_sent() + answers_of(action));
                assert(self.outcomes_sent() =~= old(self).outcomes_sent() + outcomes_of(action));
            }
            action
        }
    }

    /// Registers an accepted block if replay received the answer to its begin
    /// request; otherwise nobody waits for the block, and it is dropped.
    pub fn register_block(&mut self, answer_delivered: bool, state: BlockVerificationState)
        requires
            begin_decision(old(self).blocks(), state.summary().bank_id, state.summary().slot)
                == BeginDecision::Accept,
        ensures
            final(self).wf(),
            final(self).blocks() == if answer_delivered {
                old(self).blocks().push(state.summary())
            } else {
                old(self).blocks()
            },
            Self::same_but_blocks(*old(self), *final(self)),
    {
        proof {
            use_type_invariant(&*self);
        }
        if answer_delivered {
            let ghost before = self.blocks();
            let ghost added = state.summary();
            let mut blocks = self.take_blocks();
            blocks.push(state);
            proof {
                assert(summaries(blocks@) =~= before.push(added));
                lemma_wf_push(before, added);
            }
            self.blocks_in_progress = blocks;
        }
    }

    /// Entries are accepted and not yet verified: the blocks stay as they are and
    /// nothing is sent.
    pub fn handle_entry_message(&mut self, _entry_message: EntryMessage) -> (action: SchedulerAction)
        ensures
            Self::unchanged(*old(self), *final(self)),
            action == SchedulerAction::Nothing,
            final(self).flag_readings() == old(self).flag_readings(),
    {
        SchedulerAction::Nothing
    }

    /// Hands `outcome` to the waiter of the block that `state` tracked.
    fn notify_waiter(&mut self, state: BlockVerificationState, outcome: BlockVerificationOutcome) -> (action:
        SchedulerAction)
        ensures
            action == (SchedulerAction::Notified { bank_id: state.summary().bank_id, outcome }),
            final(self).outcomes_sent() == old(self).outcomes_sent().push(outcome),
            final(self).answers_sent() == old(self).answers_sent(),
            final(self).blocks() == old(self).blocks(),
            final(self).replay_channel_capacity() == old(self).replay_channel_capacity(),
            final(self).shutdown_flag() == old(self).shutdown_flag(),
            final(self).flag_readings() == old(self).flag_readings(),
    {
        proof {
            use_type_invariant(&*self);
        }
        let bank_id = state.bank_id;
        let _ = state.oneshot_response_sender.send_recorded(outcome, &mut self.outcomes_handed);
        proof {
            let f = |h: (BlockVerificationOutcome, bool)| h.0;
            let before = old(self).outcomes_handed.values();
            let last = self.outcomes_handed.values().last();
            assert(self.outcomes_handed.values() == before.push(last));
            assert(before.push(last).map_values(f) =~= before.map_values(f).push(outcome));
        }
        SchedulerAction::Notified { bank_id, outcome }
    }

    /// Drops the block of `bank_id`, if it is still in progress, and tells its
    /// waiter that it was aborted.
    pub fn handle_abort_message(&mut self, abort_message: AbortMessage) -> (action: SchedulerAction)
        ensures
            final(self).wf(),
            final(self).blocks() == blocks_after_abort(old(self).blocks(), abort_message.bank_id),
            action == abort_action(old(self).blocks(), abort_message.bank_id),
            final(self).outcomes_sent() == old(self).outcomes_sent() + outcomes_of(action),
            final(self).answers_sent() == old(self).answers_sent(),
            final(self).replay_channel_capacity() == old(self).replay_channel_capacity(),
            final(self).flag_readings() == old(self).flag_readings(),
    {
        proof {
            use_type_invariant(&*self);
        }
        let Some(index) = self.position_of_bank(abort_message.bank_id) else {
            // this can happen if `try_finish_completed_bank` was triggered before abort_message was handled
            proof {
                assert(self.outcomes_sent() =~= old(self).outcomes_sent() + Seq::<BlockVerificationOutcome>::empty());
            }
            return SchedulerAction::Nothing;
        };
        let ghost before = self.blocks();
        assert(before[index as int] == self.blocks_in_progress@[index as int].summary());
        let mut blocks = self.take_blocks();
        let state = blocks.remove(index);
        proof {
            assert(summaries(blocks@) =~= before.remove(index as int));
            lemma_wf_remove(before, index as int);
        }
        self.blocks_in_progress = blocks;
        let action = self.notify_waiter(state, BlockVerificationOutcome::Aborted);
        proof {
            assert(outcomes_of(action) =~= seq![BlockVerificationOutcome::Aborted]);
        }
        action
    }

    /// Marks the block of `bank_id` as fully submitted by replay, and finishes it
    /// if no verification work is outstanding.
    pub fn handle_complete_message(&mut self, complete_message: CompleteMessage) -> (action: SchedulerAction)
        ensures
            final(self).wf(),
            final(self).blocks() == blocks_after_complete(old(self).blocks(), complete_message.bank_id),
            action == complete_action(old(self).blocks(), complete_message.bank_id),
            final(self).outcomes_sent() == old(self).outcomes_sent() + outcomes_of(action),
            final(self).answers_sent() == old(self).answers_sent(),
            final(self).replay_channel_capacity() == old(self).replay_channel_capacity(),
            final(self).flag_readings() == old(self).flag_readings(),
    {
        proof {
            use_type_invariant(&*self);
        }
        let CompleteMessage { bank_id } = complete_message;
        let Some(block_verification_state_index) = self.position_of_bank(bank_id) else {
            // this can happen if it was removed due to failing verification
            proof {
                assert(self.outcomes_sent() =~= old(self).outcomes_sent() + Seq::<BlockVerificationOutcome>::empty());
            }
            return SchedulerAction::Nothing;
        };
        let ghost before = self.blocks();
        let i = block_verification_state_index;
        let mut blocks = self.take_blocks();
        blocks[i].progress_tracker.replay_marked_as_completed = true;
        proof {
            assert(summaries(blocks@) =~= before.update(i as int, marked_completed(before[i as int])));
            lemma_wf_mark(before, i as int);
        }
        self.blocks_in_progress = blocks;
        self.try_finish_completed_bank(i)
    }

    /// Finishes the block at `block_verification_state_index` if its verification
    /// is completed: it leaves the blocks in progress and its waiter is told it
    /// completed.
    pub fn try_finish_completed_bank(&mut self, block_verification_state_index: usize) -> (action: SchedulerAction)
        requires
            block_verification_state_index < old(self).blocks().len(),
        ensures
            final(self).wf(),
            final(self).blocks() == if old(self).blocks()[block_verification_state_index as int].status.completed() {
                old(self).blocks().remove(block_verification_state_index as int)
            } else {
                old(self).blocks()
            },
            action == if old(self).blocks()[block_verification_state_index as int].status.completed() {
                SchedulerAction::Notified {
                    bank_id: old(self).blocks()[block_verification_state_index as int].bank_id,
                    outcome: BlockVerificationOutcome::Completed,
                }
            } else {
                SchedulerAction::Nothing
            },
            final(self).outcomes_sent() == old(self).outcomes_sent() + outcomes_of(action),
            final(self).answers_sent() == old(self).answers_sent(),
            final(self).replay_channel_capacity() == old(self).replay_channel_capacity(),
            final(self).flag_readings() == old(self).flag_readings(),
    {
        proof {
            use_type_invariant(&*self);
        }
        let i = block_verification_state_index;
        assert(self.blocks()[i as int] == self.blocks_in_progress@[i as int].summary());
        let state = &self.blocks_in_progress[i];
        if !state.progress_tracker.is_completed() {
            proof {
                assert(self.outcomes_sent() =~= old(self).outcomes_sent() + Seq::<BlockVerificationOutcome>::empty());
            }
            return SchedulerAction::Nothing;
        }
        let ghost before = self.blocks();
        let mut blocks = self.take_blocks();
        let state = blocks.remove(i);
        proof {
            assert(summaries(blocks@) =~= before.remove(i as int));
            lemma_wf_remove(before, i as int);
        }
        self.blocks_in_progress = blocks;
        let action = self.notify_waiter(state, BlockVerificationOutcome::Completed);
        proof {
            assert(outcomes_of(action) =~= seq![BlockVerificationOutcome::Completed]);
        }
        action
    }

    /// Handles one replay message: the blocks change as `scheduler_step` says,
    /// and the answer or outcome that the returned action names is what was
    /// handed back to replay.
    pub fn handle_replay_message(&mut self, replay_message: ReplayToBlockVerificationMessage) -> (action:
        SchedulerAction)
        ensures
            final(self).wf(),
            Self::handled(*old(self), replay_message.event(), *final(self), action),
            final(self).flag_readings() == old(self).flag_readings(),
    {
        proof {
            use_type_invariant(&*self);
        }
        match replay_message {
            ReplayToBlockVerificationMessage::Begin(begin_message) => {
                self.handle_begin_message(begin_message)
            },
            ReplayToBlockVerificationMessage::Entry(entry_message) => {
                let action = self.handle_entry_message(entry_message);
                proof {
                    assert(self.answers_sent() =~= old(self).answers_sent() + answers_of(action));
                    assert(self.outcomes_sent() =~= old(self).outcomes_sent() + outcomes_of(action));
                }
                action
            },
            ReplayToBlockVerificationMessage::Complete(complete_message) => {
                let action = self.handle_complete_message(complete_message);
                proof {
                    assert(self.answers_sent() =~= old(self).answers_sent() + answers_of(action));
                }
                action
            },
            ReplayToBlockVerificationMessage::Abort(abort_message) => {
                let action = self.handle_abort_message(abort_message);
                proof {
                    assert(self.answers_sent() =~= old(self).answers_sent() + answers_of(action));
                }
                action
            },
        }
    }

    /// Acts on what one wait for a replay message observed, and says whether the
    /// event loop goes on: it stops once every replay sender is gone.
    pub fn handle_timed_receive(&mut self, received: TimedReceive<ReplayToBlockVerificationMessage>) -> (keep_running: bool)
        ensures
            final(self).wf(),
            Self::after_wait(*old(self), received, *final(self), keep_running),
            final(self).flag_readings() == old(self).flag_readings(),
    {
        proof {
            use_type_invariant(&*self);
        }
        match received {
            TimedReceive::Received(replay_message) => {
                let ghost event = replay_message.event();
                let action = self.handle_replay_message(replay_message);
                assert(Self::handled(*old(self), event, *self, action));
                true
            },
            TimedReceive::TimedOut => true,
            TimedReceive::Disconnected => false,
        }
    }

    /// Acts on one turn of the event loop: a raised shutdown flag ends the loop
    /// with nothing changed; otherwise the turn's wait is handled.
    pub fn handle_event_loop_turn(&mut self, turn: EventLoopTurn) -> (keep_running: bool)
        ensures
            final(self).wf(),
            match turn {
                EventLoopTurn::ShutdownRequested => !keep_running && Self::unchanged(*old(self), *final(self)),
                EventLoopTurn::Waited(received) => Self::after_wait(*old(self), received, *final(self), keep_running),
            },
            final(self).flag_readings() == old(self).flag_readings(),
    {
        proof {
            use_type_invariant(&*self);
        }
        match turn {
            EventLoopTurn::ShutdownRequested => false,
            EventLoopTurn::Waited(received) => self.handle_timed_receive(received),
        }
    }

    /// One turn of the event loop: stops when shutdown was requested, otherwise
    /// waits up to the poll interval for a replay message and handles it.
    /// Returns whether the loop goes on.
    ///
    /// Blocks still in progress when the loop ends are dropped with the
    /// scheduler, so their outcome receivers see the scheduler as shut down.
    pub fn poll_replay_message(&mut self) -> (keep_running: bool)
        ensures
            final(self).wf(),
            !keep_running ==> Self::unchanged(*old(self), *final(self)),
            final(self).flag_readings().len() == old(self).flag_readings().len() + 1,
            final(self).flag_readings().drop_last() == old(self).flag_readings(),
            final(self).flag_readings().last() ==> !keep_running,
            Self::unchanged(*old(self), *final(self)) || exists|event: ReplayEvent, action: SchedulerAction|
                Self::handled(*old(self), event, *final(self), action),
    {
        proof {
            use_type_invariant(&*self);
        }
        let ghost start = *self;
        let turn = if self.shutdown_token_ref.is_cancelled_recorded(&mut self.flag_readings) {
            EventLoopTurn::ShutdownRequested
        } else {
            EventLoopTurn::Waited(
                receive_with_timeout(&self.replay_message_receiver, SHUTDOWN_POLL_INTERVAL_MILLIS),
            )
        };
        let ghost read = *self;
        let ghost event = match &turn {
            EventLoopTurn::Waited(TimedReceive::Received(message)) => message.event(),
            _ => ReplayEvent::Entry { bank_id: 0 },
        };
        let keep_running = self.handle_event_loop_turn(turn);
        proof {
            assert(Self::unchanged(start, read));
            if !Self::unchanged(read, *self) {
                let action = choose|action: SchedulerAction| Self::handled(read, event, *self, action);
                assert(Self::handled(start, event, *self, action));
            }
        }
        keep_running
    }
}

/// Every replay event keeps the blocks in progress well formed: no two of them
/// share a bank id, and no two share a slot.
pub proof fn lemma_step_preserves_wf(
    old: Seq<BlockSummary>,
    event: ReplayEvent,
    new: Seq<BlockSummary>,
    action: SchedulerAction,
)
    requires
        blocks_wf(old),
        scheduler_step(old, event, new, action),
    ensures
        blocks_wf(new),
{
    match event {
        ReplayEvent::Begin { bank_id, slot } => {
            if new != old {
                lemma_wf_push(old, fresh_block(bank_id, slot));
            }
        },
        ReplayEvent::Entry { bank_id } => {},
        ReplayEvent::Complete { bank_id } => {
            if bank_in_use(old, bank_id) {
                let i = bank_index(old, bank_id);
                lemma_bank_index_bounds(old, bank_id);
                if marked_completed(old[i]).status.completed() {
                    lemma_wf_remove(old, i);
                } else {
                    lemma_wf_mark(old, i);
                }
            }
        },
        ReplayEvent::Abort { bank_id } => {
            if bank_in_use(old, bank_id) {
                lemma_bank_index_bounds(old, bank_id);
                lemma_wf_remove(old, bank_index(old, bank_id));
            }
        },
    }
}

/// Replay marking the block of `bank_id` completed touches no other block. If
/// that block has no verification work outstanding, exactly it leaves the blocks
/// in progress and every other block stays, in order; if work is outstanding, it
/// stays where it is, marked completed, and every other block is unchanged; if
/// there is no such block, nothing changes.
pub proof fn lemma_complete_removes_only_its_block(old: Seq<BlockSummary>, bank_id: u64)
    requires
        blocks_wf(old),
    ensures
        !bank_in_use(old, bank_id) ==> blocks_after_complete(old, bank_id) == old,
        forall|i: int|
            0 <= i < old.len() && #[trigger] old[i].bank_id == bank_id ==> {
                let status = old[i].status;
                let idle = status.sig_verify_operations_in_progress == 0
                    && status.entry_hash_verification_operations_in_progress == 0;
                &&& idle ==> blocks_after_complete(old, bank_id) == old.remove(i)
                &&& !idle ==> blocks_after_complete(old, bank_id) == old.update(
                    i,
                    BlockSummary {
                        bank_id: old[i].bank_id,
                        slot: old[i].slot,
                        status: BlockVerificationStatus {
                            replay_marked_as_completed: true,
                            sig_verify_operations_in_progress: status.sig_verify_operations_in_progress,
                            entry_hash_verification_operations_in_progress: status.entry_hash_verification_operations_in_progress,
                        },
                    },
                )
            },
{
    assert forall|i: int| 0 <= i < old.len() && #[trigger] old[i].bank_id == bank_id implies bank_index(
        old,
        bank_id,
    ) == i by {
        lemma_bank_index_is(old, bank_id, i);
    }
}

/// An abort for `bank_id` touches no other block: exactly the block of
/// `bank_id` leaves the blocks in progress and every other block stays, in
/// order; with no such block, nothing changes.
pub proof fn lemma_abort_removes_only_its_block(old: Seq<BlockSummary>, bank_id: u64)
    requires
        blocks_wf(old),
    ensures
        !bank_in_use(old, bank_id) ==> blocks_after_abort(old, bank_id) == old,
        forall|i: int|
            0 <= i < old.len() && #[trigger] old[i].bank_id == bank_id ==> blocks_after_abort(old, bank_id)
                == old.remove(i),
{
    assert forall|i: int| 0 <= i < old.len() && #[trigger] old[i].bank_id == bank_id implies bank_index(
        old,
        bank_id,
    ) == i by {
        lemma_bank_index_is(old, bank_id, i);
    }
}

/// Aborting a block releases its bank id and its slot: a later begin for the
/// same bank id at the same slot is accepted.
pub proof fn lemma_abort_releases_bank_and_slot(old: Seq<BlockSummary>, bank_id: u64)
    requires
        blocks_wf(old),
        bank_in_use(old, bank_id),
    ensures
        !bank_in_use(blocks_after_abort(old, bank_id), bank_id),
        !slot_in_use(blocks_after_abort(old, bank_id), old[bank_index(old, bank_id)].slot),
        begin_decision(blocks_after_abort(old, bank_id), bank_id, old[bank_index(old, bank_id)].slot)
            == BeginDecision::Accept,
{
    let i = bank_index(old, bank_id);
    lemma_bank_index_bounds(old, bank_id);
    old.remove_ensures(i);
    let r = old.remove(i);
    let slot = old[i].slot;
    assert forall|k: int| 0 <= k < r.len() implies #[trigger] r[k].bank_id != bank_id && r[k].slot
        != slot by {
        let k2 = if k < i { k } else { k + 1 };
        assert(r[k] == old[k2]);
        assert(old[k2].bank_id != old[i].bank_id);
    }
}

/// Aborting a block that was just registered gives back the blocks as they were
/// before its begin.
pub proof fn lemma_abort_undoes_begin(old: Seq<BlockSummary>, bank_id: u64, slot: u64)
    requires
        blocks_wf(old),
        begin_decision(old, bank_id, slot) == BeginDecision::Accept,
    ensures
        blocks_after_abort(old.push(fresh_block(bank_id, slot)), bank_id) == old,
{
    let new = old.push(fresh_block(bank_id, slot));
    lemma_wf_push(old, fresh_block(bank_id, slot));
    lemma_bank_index_is(new, bank_id, old.len() as int);
    assert(new.remove(old.len() as int) =~= old);
}

/// Marking a block that was just registered (and so has no verification work
/// outstanding) as completed finishes it: the blocks are as they were before its
/// begin.
pub proof fn lemma_complete_finishes_fresh_block(old: Seq<BlockSummary>, bank_id: u64, slot: u64)
    requires
        blocks_wf(old),
        begin_decision(old, bank_id, slot) == BeginDecision::Accept,
    ensures
        blocks_after_complete(old.push(fresh_block(bank_id, slot)), bank_id) == old,
{
    let new = old.push(fresh_block(bank_id, slot));
    lemma_wf_push(old, fresh_block(bank_id, slot));
    lemma_bank_index_is(new, bank_id, old.len() as int);
    assert(marked_completed(new[old.len() as int]).status.completed());
    assert(new.remove(old.len() as int) =~= old);
}

/// An abort or a completion for a bank id that has no block in progress changes
/// nothing.
pub proof fn lemma_unknown_bank_is_ignored(old: Seq<BlockSummary>, bank_id: u64)
    requires
        !bank_in_use(old, bank_id),
    ensures
        blocks_after_abort(old, bank_id) == old,
        blocks_after_complete(old, bank_id) == old,
{
}

/// While a block is registered, a begin for its bank id is refused with
/// `BankIdOccupied` (whatever the slot), and a begin for another, unused bank id
/// at its slot is refused with `SlotIdOccupied`.
pub proof fn lemma_registered_ids_are_refused(
    old: Seq<BlockSummary>,
    bank_id: u64,
    slot: u64,
    other_bank_id: u64,
    other_slot: u64,
)
    requires
        blocks_wf(old),
        begin_decision(old, bank_id, slot) == BeginDecision::Accept,
        other_bank_id != bank_id,
        !bank_in_use(old, other_bank_id),
    ensures
        begin_decision(old.push(fresh_block(bank_id, slot)), bank_id, other_slot)
            == BeginDecision::BankIdOccupied,
        begin_decision(old.push(fresh_block(bank_id, slot)), other_bank_id, slot)
            == BeginDecision::SlotIdOccupied,
{
    let new = old.push(fresh_block(bank_id, slot));
    let n = old.len() as int;
    assert(new[n].bank_id == bank_id);
    assert(new[n].slot == slot);
    assert forall|k: int| 0 <= k < new.len() implies #[trigger] new[k].bank_id != other_bank_id by {
        if k < n {
            assert(new[k] == old[k]);
        }
    }
}

/// A begin is answered with the scheduler's decision: `BankIdOccupied` when the
/// bank id is in use, otherwise `SlotIdOccupied` when the slot is; a refused
/// begin leaves the blocks as they were, and an accepted one registers the block
/// exactly when replay received the answer.
pub proof fn lemma_begin_is_answered(
    old: Seq<BlockSummary>,
    bank_id: u64,
    slot: u64,
    new: Seq<BlockSummary>,
    action: SchedulerAction,
)
    requires
        scheduler_step(old, ReplayEvent::Begin { bank_id, slot }, new, action),
    ensures
        bank_in_use(old, bank_id) ==> (action matches SchedulerAction::Answered { decision, .. }
            && decision == BeginDecision::BankIdOccupied) && new == old,
        !bank_in_use(old, bank_id) && slot_in_use(old, slot) ==> (action matches SchedulerAction::Answered {
            decision,
            ..
        } && decision == BeginDecision::SlotIdOccupied) && new == old,
        !bank_in_use(old, bank_id) && !slot_in_use(old, slot) ==> (action matches SchedulerAction::Answered {
            decision,
            delivered,
        } && decision == BeginDecision::Accept && new == if delivered {
            old.push(fresh_block(bank_id, slot))
        } else {
            old
        }),
{
}

/// Once a block is registered, its waiter is told how it ended: an abort sends
/// it `Aborted`, and a completion (no verification work being outstanding for a
/// fresh block) sends it `Completed`.
pub proof fn lemma_waiters_are_told(old: Seq<BlockSummary>, bank_id: u64, slot: u64)
    requires
        blocks_wf(old),
        begin_decision(old, bank_id, slot) == BeginDecision::Accept,
    ensures
        abort_action(old.push(fresh_block(bank_id, slot)), bank_id) == (SchedulerAction::Notified {
            bank_id,
            outcome: BlockVerificationOutcome::Aborted,
        }),
        complete_action(old.push(fresh_block(bank_id, slot)), bank_id) == (SchedulerAction::Notified {
            bank_id,
            outcome: BlockVerificationOutcome::Completed,
        }),
{
    let new = old.push(fresh_block(bank_id, slot));
    lemma_wf_push(old, fresh_block(bank_id, slot));
    lemma_bank_index_is(new, bank_id, old.len() as int);
    assert(marked_completed(new[old.len() as int]).status.completed());
}
} // verus!
