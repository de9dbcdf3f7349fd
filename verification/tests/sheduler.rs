// The scheduler is driven on the test's own thread: every message a session
// sends is handed to the scheduler before the test waits for an answer.

use block_verification_stage::channel::supports_channel_capacity;
use block_verification_stage::messages::{
    AbortMessage, BeginMessage, BeginMessageResponse, BlockVerificationOutcome, CompleteMessage, EntryMessage,
    ReplayToBlockVerificationMessage,
};
use block_verification_stage::scheduler::{
    BeginDecision, BlockVerificationScheduler, BlockVerificationStatus, EventLoopTurn, SchedulerAction,
};
use block_verification_stage::stage::{
    begin_block_response, begin_send_result, received_outcome, scheduler_send_result, Aborted, AllEntriesSubmitted, BeginBlockError, BlockVerificationSession,
    BlockVerificationStage, SchedulerShutdownError, Started,
};
use block_verification_stage::utils::oneshot;
use block_verification_stage::verification_components::{VerifyEntryHash, VerifySignature};
use block_verification_stage::SchedulerConfig;
use solana_clock::{BankId, Slot};

const TEST_SCHEDULER_CONFIG: SchedulerConfig = SchedulerConfig {
    replay_to_block_verification_channel_size: 10,
    block_verification_to_replay_channel_size: 10,
};

const BOGUS_HASH: solana_hash::Hash = solana_hash::Hash::new_from_array([1; 32]);

struct TestSignatureVerifier;
impl VerifySignature for TestSignatureVerifier {}

struct TestEntryHashVerifier;
impl VerifyEntryHash for TestEntryHashVerifier {}

type TestScheduler = BlockVerificationScheduler<TestSignatureVerifier, TestEntryHashVerifier>;

struct Harness {
    scheduler: TestScheduler,
    stage: BlockVerificationStage,
    sender: crossbeam_channel::Sender<ReplayToBlockVerificationMessage>,
    receiver: crossbeam_channel::Receiver<ReplayToBlockVerificationMessage>,
}

fn run_scheduler(config: SchedulerConfig) -> Harness {
    let capacity = config.replay_to_block_verification_channel_size;
    let (scheduler, stage) =
        BlockVerificationScheduler::create(config, TestSignatureVerifier, TestEntryHashVerifier);
    // The sessions' messages travel over a channel of the same size, which the
    // test drains into the scheduler.
    let (sender, receiver) = crossbeam_channel::bounded(capacity);
    Harness { scheduler, stage, sender, receiver }
}

impl Harness {
    fn begin_block(&mut self, bank_id: BankId, slot: Slot, hash: solana_hash::Hash) -> Result<BlockVerificationSession<Started>, BeginBlockError> {
        let (response_sender, response_receiver) = oneshot::channel();
        self.scheduler.handle_replay_message(ReplayToBlockVerificationMessage::Begin(BeginMessage {
            bank_id,
            parent_bank_last_entry_hash: hash,
            slot,
            begin_message_response_sender: response_sender,
        }));
        let verification_receiver = begin_block_response(response_receiver.recv())?;
        Ok(BlockVerificationSession::new(bank_id, self.sender.clone(), verification_receiver))
    }

    fn deliver(&mut self) {
        while let Ok(message) = self.receiver.try_recv() {
            self.scheduler.handle_replay_message(message);
        }
    }
}

#[test]
fn block_with_no_entries_marked_as_completed_passes_verification() {
    let mut stage = run_scheduler(TEST_SCHEDULER_CONFIG);
    const BANK_ID: BankId = 123;
    const SLOT: Slot = 120;

    let session: BlockVerificationSession<Started> = stage.begin_block(BANK_ID, SLOT, BOGUS_HASH).unwrap();
    let session: BlockVerificationSession<AllEntriesSubmitted> = session.mark_completed().unwrap();
    stage.deliver();
    let block_verification_outcome = session.wait_for_outcome().unwrap();
    assert_eq!(block_verification_outcome, BlockVerificationOutcome::Completed)
}

#[test]
fn block_with_no_entries_aborted_aborts_verification() {
    let mut stage = run_scheduler(TEST_SCHEDULER_CONFIG);
    const BANK_ID: BankId = 123;
    const SLOT: Slot = 120;

    let session: BlockVerificationSession<Started> = stage.begin_block(BANK_ID, SLOT, BOGUS_HASH).unwrap();
    let session: BlockVerificationSession<Aborted> = session.abort_block_verification().unwrap();
    stage.deliver();
    let block_verification_outcome = session.wait_for_outcome().unwrap();
    assert_eq!(block_verification_outcome, BlockVerificationOutcome::Aborted)
}

#[test]
fn reusing_slot_id_causes_failure() {
    let mut stage = run_scheduler(TEST_SCHEDULER_CONFIG);
    const FIRST_BANK_ID: BankId = 1;
    const SECOND_BANK_ID: BankId = 2;
    const SLOT: Slot = 120;

    let session: BlockVerificationSession<Started> =
        stage.begin_block(FIRST_BANK_ID, SLOT, BOGUS_HASH).unwrap();

    let begin_block_result = stage.begin_block(SECOND_BANK_ID, SLOT, BOGUS_HASH);
    assert!(matches!(begin_block_result, Err(BeginBlockError::SlotIdOccupied)));

    let session: BlockVerificationSession<AllEntriesSubmitted> = session.mark_completed().unwrap();
    stage.deliver();
    let block_verification_outcome = session.wait_for_outcome().unwrap();
    assert_eq!(block_verification_outcome, BlockVerificationOutcome::Completed);

    let session: BlockVerificationSession<Started> =
        stage.begin_block(SECOND_BANK_ID, SLOT, BOGUS_HASH).unwrap();
    let session: BlockVerificationSession<AllEntriesSubmitted> = session.mark_completed().unwrap();
    stage.deliver();
    let block_verification_outcome = session.wait_for_outcome().unwrap();
    assert_eq!(block_verification_outcome, BlockVerificationOutcome::Completed);
}

#[test]
fn reusing_bank_id_causes_failure() {
    let mut stage = run_scheduler(TEST_SCHEDULER_CONFIG);
    const BANK_ID: BankId = 123;
    const FIRST_SLOT: Slot = 120;
    const SECOND_SLOT: Slot = 121;

    let session: BlockVerificationSession<Started> =
        stage.begin_block(BANK_ID, FIRST_SLOT, BOGUS_HASH).unwrap();

    let begin_block_result = stage.begin_block(BANK_ID, SECOND_SLOT, BOGUS_HASH);
    assert!(matches!(begin_block_result, Err(BeginBlockError::BankIdOccupied)));

    let session: BlockVerificationSession<Aborted> = session.abort_block_verification().unwrap();
    stage.deliver();
    let block_verification_outcome = session.wait_for_outcome().unwrap();
    assert_eq!(block_verification_outcome, BlockVerificationOutcome::Aborted);

    // The bank id is released once the first block is aborted, so it can be registered again.
    let session: BlockVerificationSession<Started> =
        stage.begin_block(BANK_ID, SECOND_SLOT, BOGUS_HASH).unwrap();
    let session: BlockVerificationSession<AllEntriesSubmitted> = session.mark_completed().unwrap();
    stage.deliver();
    let block_verification_outcome = session.wait_for_outcome().unwrap();
    assert_eq!(block_verification_outcome, BlockVerificationOutcome::Completed);
}

#[test]
fn dropping_started_session_releases_bank_id_and_slot() {
    let mut stage = run_scheduler(TEST_SCHEDULER_CONFIG);
    const BANK_ID: BankId = 123;
    const SLOT: Slot = 120;

    let session: BlockVerificationSession<Started> = stage.begin_block(BANK_ID, SLOT, BOGUS_HASH).unwrap();

    // Dropping the session sends an abort, which the scheduler handles before the next begin.
    drop(session);
    stage.deliver();

    let session: BlockVerificationSession<Started> = stage.begin_block(BANK_ID, SLOT, BOGUS_HASH).unwrap();
    let session: BlockVerificationSession<AllEntriesSubmitted> = session.mark_completed().unwrap();
    stage.deliver();
    let block_verification_outcome = session.wait_for_outcome().unwrap();
    assert_eq!(block_verification_outcome, BlockVerificationOutcome::Completed);
}

#[test]
fn shutdown_stops_scheduler_with_block_in_progress() {
    let mut stage = run_scheduler(TEST_SCHEDULER_CONFIG);
    const BANK_ID: BankId = 123;
    const SLOT: Slot = 120;

    let session: BlockVerificationSession<Started> = stage.begin_block(BANK_ID, SLOT, BOGUS_HASH).unwrap();

    // The session still holds a sender, so only the shutdown token stops the scheduler.
    let Harness { mut scheduler, stage, sender, receiver } = stage;
    stage.request_shutdown();
    assert!(!scheduler.poll_replay_message());
    // The scheduler's event loop is over: it and its end of the channel go away.
    drop(scheduler);
    drop(receiver);
    drop(sender);

    assert!(matches!(session.mark_completed(), Err(SchedulerShutdownError)));
}

#[test]
fn block_dropped_by_scheduler_reports_shutdown_to_waiter() {
    let mut stage = run_scheduler(TEST_SCHEDULER_CONFIG);
    let session = stage.begin_block(7, 8, BOGUS_HASH).unwrap();
    let session = session.mark_completed().unwrap();
    // The scheduler goes away before it sees the completion.
    let Harness { scheduler, .. } = stage;
    drop(scheduler);
    assert_eq!(session.wait_for_outcome(), Err(SchedulerShutdownError));
}

#[test]
fn poll_keeps_running_when_no_message_arrives() {
    let mut harness = run_scheduler(TEST_SCHEDULER_CONFIG);
    assert!(harness.scheduler.poll_replay_message());
}

#[test]
fn poll_stops_once_the_stage_is_dropped() {
    let Harness { mut scheduler, stage, .. } = run_scheduler(TEST_SCHEDULER_CONFIG);
    drop(stage);
    assert!(!scheduler.poll_replay_message());
}

#[test]
fn begin_decisions_follow_bank_and_slot_use() {
    let mut harness = run_scheduler(TEST_SCHEDULER_CONFIG);
    assert!(harness.scheduler.decide_begin(1, 10) == BeginDecision::Accept);
    let _session = harness.begin_block(1, 10, BOGUS_HASH).unwrap();
    assert!(harness.scheduler.decide_begin(1, 11) == BeginDecision::BankIdOccupied);
    assert!(harness.scheduler.decide_begin(1, 10) == BeginDecision::BankIdOccupied);
    assert!(harness.scheduler.decide_begin(2, 10) == BeginDecision::SlotIdOccupied);
    assert!(harness.scheduler.decide_begin(2, 11) == BeginDecision::Accept);
}

#[test]
fn abort_and_complete_for_unknown_bank_are_ignored() {
    let mut harness = run_scheduler(TEST_SCHEDULER_CONFIG);
    let session = harness.begin_block(5, 50, BOGUS_HASH).unwrap();
    harness
        .scheduler
        .handle_replay_message(ReplayToBlockVerificationMessage::Abort(AbortMessage { bank_id: 6 }));
    harness
        .scheduler
        .handle_replay_message(ReplayToBlockVerificationMessage::Complete(CompleteMessage { bank_id: 6 }));
    assert!(harness.scheduler.decide_begin(5, 51) == BeginDecision::BankIdOccupied);
    assert!(harness.scheduler.decide_begin(6, 50) == BeginDecision::SlotIdOccupied);
    drop(session);
    harness.deliver();
    assert!(harness.scheduler.decide_begin(6, 50) == BeginDecision::Accept);
}

#[test]
fn entries_leave_the_block_in_progress() {
    let mut harness = run_scheduler(TEST_SCHEDULER_CONFIG);
    let mut session = harness.begin_block(3, 30, BOGUS_HASH).unwrap();
    session.submit_entry(bytes::Bytes::from_static(&[1, 2, 3])).unwrap();
    harness.scheduler.handle_replay_message(ReplayToBlockVerificationMessage::Entry(EntryMessage {
        bank_id: 3,
        entry: bytes::Bytes::new(),
    }));
    harness.deliver();
    assert!(harness.scheduler.decide_begin(3, 31) == BeginDecision::BankIdOccupied);
    let session = session.mark_completed().unwrap();
    harness.deliver();
    assert_eq!(session.wait_for_outcome(), Ok(BlockVerificationOutcome::Completed));
    assert!(harness.scheduler.decide_begin(3, 30) == BeginDecision::Accept);
}

#[test]
fn waiting_disarms_the_session() {
    let mut harness = run_scheduler(TEST_SCHEDULER_CONFIG);
    let session = harness.begin_block(9, 90, BOGUS_HASH).unwrap();
    let session = session.mark_completed().unwrap();
    harness.deliver();
    assert_eq!(session.wait_for_outcome(), Ok(BlockVerificationOutcome::Completed));
    // Nothing more was sent for the block.
    assert!(harness.receiver.try_recv().is_err());
}

#[test]
fn aborted_session_sends_nothing_when_dropped() {
    let mut harness = run_scheduler(TEST_SCHEDULER_CONFIG);
    let session = harness.begin_block(11, 110, BOGUS_HASH).unwrap();
    let session = session.abort_block_verification().unwrap();
    let message = harness.receiver.try_recv().unwrap();
    assert!(matches!(message, ReplayToBlockVerificationMessage::Abort(AbortMessage { bank_id: 11 })));
    drop(session);
    assert!(harness.receiver.try_recv().is_err());
}

#[test]
fn begin_block_response_maps_every_answer() {
    let (_sender, receiver) = oneshot::channel::<BlockVerificationOutcome>();
    assert!(begin_block_response(Ok(BeginMessageResponse::Success { verification_receiver: receiver })).is_ok());
    assert!(matches!(
        begin_block_response(Ok(BeginMessageResponse::BankIdOccupied)),
        Err(BeginBlockError::BankIdOccupied)
    ));
    assert!(matches!(
        begin_block_response(Ok(BeginMessageResponse::SlotIdOccupied)),
        Err(BeginBlockError::SlotIdOccupied)
    ));
    assert!(matches!(
        begin_block_response(Err(crossbeam_channel::RecvError)),
        Err(BeginBlockError::SchedulerShutDown)
    ));
}

#[test]
fn begin_against_a_stopped_scheduler_fails() {
    let Harness { scheduler, stage, .. } = run_scheduler(TEST_SCHEDULER_CONFIG);
    drop(scheduler);
    assert!(matches!(stage.begin_block(1, 1, BOGUS_HASH), Err(BeginBlockError::SchedulerShutDown)));
}

#[test]
fn status_is_completed_only_when_marked_and_idle() {
    let mut status = BlockVerificationStatus::default();
    assert!(!status.is_completed());
    status.replay_marked_as_completed = true;
    assert!(status.is_completed());
    status.sig_verify_operations_in_progress = 1;
    assert!(!status.is_completed());
    status.sig_verify_operations_in_progress = 0;
    status.entry_hash_verification_operations_in_progress = 2;
    assert!(!status.is_completed());
}

#[test]
fn default_config_uses_channel_sizes_of_one_hundred() {
    let config = SchedulerConfig::default();
    assert_eq!(config.replay_to_block_verification_channel_size, 100);
    assert_eq!(config.block_verification_to_replay_channel_size, 100);
}

#[test]
fn channel_capacities_that_can_be_built() {
    assert!(supports_channel_capacity::<ReplayToBlockVerificationMessage>(0));
    assert!(supports_channel_capacity::<ReplayToBlockVerificationMessage>(1));
    assert!(supports_channel_capacity::<ReplayToBlockVerificationMessage>(100));
    assert!(supports_channel_capacity::<[u8; 1024]>(1));
    assert!(!supports_channel_capacity::<[u8; 1024]>(usize::MAX / 1024));
    assert!(!supports_channel_capacity::<ReplayToBlockVerificationMessage>(usize::MAX));
    assert!(!supports_channel_capacity::<u8>(usize::MAX / 2));
}

#[test]
fn send_and_receive_results_map_to_shutdown_errors() {
    assert_eq!(scheduler_send_result::<u8>(Ok(())), Ok(()));
    assert_eq!(scheduler_send_result(Err(5u8)), Err(SchedulerShutdownError));
    assert_eq!(
        received_outcome(Ok(BlockVerificationOutcome::Aborted)),
        Ok(BlockVerificationOutcome::Aborted)
    );
    assert_eq!(received_outcome(Err(crossbeam_channel::RecvError)), Err(SchedulerShutdownError));
}

fn begin_message(bank_id: BankId, slot: Slot) -> (ReplayToBlockVerificationMessage, oneshot::OneshotReceiver<BeginMessageResponse>) {
    let (response_sender, response_receiver) = oneshot::channel();
    (ReplayToBlockVerificationMessage::begin(bank_id, slot, BOGUS_HASH, response_sender), response_receiver)
}

#[test]
fn begin_answers_match_the_decisions() {
    let mut harness = run_scheduler(TEST_SCHEDULER_CONFIG);
    let (message, answer) = begin_message(1, 10);
    assert_eq!(
        harness.scheduler.handle_replay_message(message),
        SchedulerAction::Answered { decision: BeginDecision::Accept, delivered: true }
    );
    assert!(matches!(answer.recv(), Ok(BeginMessageResponse::Success { .. })));

    let (message, answer) = begin_message(1, 11);
    assert_eq!(
        harness.scheduler.handle_replay_message(message),
        SchedulerAction::Answered { decision: BeginDecision::BankIdOccupied, delivered: true }
    );
    assert!(matches!(answer.recv(), Ok(BeginMessageResponse::BankIdOccupied)));

    let (message, answer) = begin_message(2, 10);
    assert_eq!(
        harness.scheduler.handle_replay_message(message),
        SchedulerAction::Answered { decision: BeginDecision::SlotIdOccupied, delivered: true }
    );
    assert!(matches!(answer.recv(), Ok(BeginMessageResponse::SlotIdOccupied)));
}

#[test]
fn undelivered_acceptance_registers_nothing() {
    let mut harness = run_scheduler(TEST_SCHEDULER_CONFIG);
    let (message, answer) = begin_message(4, 40);
    drop(answer);
    assert_eq!(
        harness.scheduler.handle_replay_message(message),
        SchedulerAction::Answered { decision: BeginDecision::Accept, delivered: false }
    );
    assert!(harness.scheduler.decide_begin(4, 40) == BeginDecision::Accept);
}

#[test]
fn waiters_are_told_aborted_or_completed() {
    let mut harness = run_scheduler(TEST_SCHEDULER_CONFIG);
    let aborted = harness.begin_block(1, 10, BOGUS_HASH).unwrap();
    let completed = harness.begin_block(2, 20, BOGUS_HASH).unwrap();
    assert_eq!(
        harness.scheduler.handle_replay_message(ReplayToBlockVerificationMessage::abort(1)),
        SchedulerAction::Notified { bank_id: 1, outcome: BlockVerificationOutcome::Aborted }
    );
    assert_eq!(
        harness.scheduler.handle_replay_message(ReplayToBlockVerificationMessage::complete(2)),
        SchedulerAction::Notified { bank_id: 2, outcome: BlockVerificationOutcome::Completed }
    );
    assert_eq!(
        harness.scheduler.handle_replay_message(ReplayToBlockVerificationMessage::abort(1)),
        SchedulerAction::Nothing
    );
    assert_eq!(
        harness.scheduler.handle_replay_message(ReplayToBlockVerificationMessage::complete(2)),
        SchedulerAction::Nothing
    );
    assert_eq!(
        harness.scheduler.handle_replay_message(ReplayToBlockVerificationMessage::entry(2, bytes::Bytes::new())),
        SchedulerAction::Nothing
    );
    let aborted = aborted.abort_block_verification();
    drop(aborted);
    let completed = completed.mark_completed().unwrap();
    assert_eq!(completed.wait_for_outcome(), Ok(BlockVerificationOutcome::Completed));
}

#[test]
fn a_raised_flag_ends_the_event_loop() {
    let mut harness = run_scheduler(TEST_SCHEDULER_CONFIG);
    let _session = harness.begin_block(1, 10, BOGUS_HASH).unwrap();
    assert!(!harness.scheduler.handle_event_loop_turn(EventLoopTurn::ShutdownRequested));
    assert!(harness.scheduler.decide_begin(1, 11) == BeginDecision::BankIdOccupied);
}

#[test]
fn failed_begin_send_means_shutdown() {
    assert_eq!(begin_send_result::<u8>(Ok(())), Ok(()));
    assert_eq!(
        begin_send_result(Err(1u8)),
        Err(BeginBlockError::SchedulerShutDown)
    );
}
