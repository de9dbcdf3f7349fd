use block_verification_stage::transaction_ptr::{
    BatchCapacityError, TransactionBatchRegion, TransactionPtr, TransactionPtrBatch, TransactionRegion,
    MAX_TRANSACTIONS_PER_MESSAGE,
};
use std::cell::Cell;

fn region(offset: usize, length: u32) -> TransactionRegion {
    TransactionRegion { offset, length }
}

#[test]
fn extend_checks_capacity_before_mapping_and_preserves_order() {
    let regions = [region(64, 1), region(128, 1), region(192, 1)];
    let mut batch = TransactionPtrBatch::<u64, 3>::allocate(4096);
    let mapped = Cell::new(0u64);
    let map = |region: &TransactionRegion| {
        mapped.set(mapped.get() + 1);
        (*region, mapped.get())
    };

    batch.try_extend_from_slice(&regions[..1], &map).unwrap();
    assert_eq!(batch.try_extend_from_slice(&regions, &map), Err(BatchCapacityError));
    assert_eq!(batch.len(), 1);
    batch.try_extend_from_slice(&regions[1..], &map).unwrap();
    batch.try_extend_from_slice(&[], &map).unwrap();
    assert_eq!(mapped.get(), 3);
    assert_eq!(batch.len(), 3);
    for (index, (_, meta)) in batch.iter().into_iter().enumerate() {
        assert_eq!(batch.transaction_region(index), regions[index]);
        assert_eq!(meta, index as u64 + 1);
    }
}

#[test]
fn push_fills_up_to_capacity_and_then_returns_the_inputs() {
    let mut batch = TransactionPtrBatch::<u32, 2>::allocate(0);
    assert!(batch.is_empty());
    assert_eq!(batch.push(region(8, 100), 7), Ok(()));
    assert_eq!(batch.push(region(16, 200), 8), Ok(()));
    assert_eq!(batch.push(region(24, 300), 9), Err((region(24, 300), 9)));
    assert_eq!(batch.len(), 2);
    assert!(!batch.is_empty());
    assert_eq!(batch.transaction_region(0), region(8, 100));
    assert_eq!(batch.transaction_region(1), region(16, 200));
    let entries = batch.iter();
    assert_eq!(entries.len(), 2);
    assert_eq!(entries[1].0.offset(), 16);
    assert_eq!(entries[1].0.count(), 200);
    assert_eq!(entries[1].1, 8);
}

#[test]
fn sharable_batch_region_round_trips() {
    let mut batch = TransactionPtrBatch::<u8, 4>::allocate(512);
    batch.push(region(1000, 10), 1).unwrap();
    batch.push(region(2000, 20), 2).unwrap();
    let shared = batch.to_sharable_transaction_batch_region();
    assert_eq!(shared, TransactionBatchRegion { num_transactions: 2, transactions_offset: 512 });
    let read_back = TransactionPtrBatch::<u8, 4>::from_sharable_transaction_batch_region(
        &shared,
        vec![region(1000, 10), region(2000, 20)],
        vec![1, 2],
    );
    assert_eq!(read_back.len(), 2);
    assert_eq!(read_back.transactions_offset(), 512);
    assert_eq!(read_back.transaction_region(1), region(2000, 20));
    assert_eq!(read_back.to_sharable_transaction_batch_region(), shared);
}

#[test]
fn transaction_ptr_round_trips_its_region() {
    let original = region(4242, 77);
    let ptr = TransactionPtr::from_sharable_transaction_region(&original);
    assert_eq!(ptr.offset(), 4242);
    assert_eq!(ptr.count(), 77);
    assert_eq!(ptr.to_sharable_transaction_region(), original);
}

#[test]
fn layout_of_a_small_u64_batch() {
    type Batch = TransactionPtrBatch<u64, 3>;
    assert!(Batch::layout_is_valid());
    assert_eq!(Batch::transaction_core_size(), 16);
    assert_eq!(Batch::transaction_core_end(), 48);
    assert_eq!(Batch::transaction_meta_start(), 48);
    assert_eq!(Batch::transaction_meta_size(), 24);
    assert_eq!(Batch::transaction_meta_end(), 72);
    assert_eq!(Batch::transaction_slot_offset(2), 32);
    assert_eq!(Batch::meta_slot_offset(2), 64);
}

#[test]
fn metadata_array_follows_the_region_array() {
    type Batch = TransactionPtrBatch<u128, 5>;
    assert!(Batch::layout_is_valid());
    assert_eq!(Batch::transaction_core_end(), 80);
    assert_eq!(Batch::transaction_meta_start(), 80);
    assert_eq!(Batch::transaction_meta_size(), 80);
    assert_eq!(Batch::transaction_meta_end(), 160);
    assert_eq!(Batch::meta_slot_offset(1), 96);
}

#[test]
fn layouts_beyond_the_limits_are_rejected() {
    assert!(TransactionPtrBatch::<(), 64>::layout_is_valid());
    assert!(TransactionPtrBatch::<u64, 64>::layout_is_valid());
    assert!(!TransactionPtrBatch::<(), 65>::layout_is_valid());
    assert!(!TransactionPtrBatch::<[u8; 64], 64>::layout_is_valid());
    assert_eq!(MAX_TRANSACTIONS_PER_MESSAGE, agave_scheduler_bindings::MAX_TRANSACTIONS_PER_MESSAGE);
}

#[test]
fn capacity_error_message() {
    assert_eq!(BatchCapacityError.message(), "transaction batch capacity exceeded");
}
