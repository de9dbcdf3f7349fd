//! Bookkeeping of transaction batches shared with an external scheduler.
//!
//! A batch is one allocation of the shared-memory allocator: an array of
//! `CAPACITY` transaction regions followed, at the next multiple of the
//! metadata's alignment, by an array of `CAPACITY` metadata values. The types
//! here hold, as plain values, what the batch holds: where it was allocated, the
//! regions and metadata written so far, and the layout of the allocation.

use agave_scheduler_bindings::SharableTransactionRegion;
use vstd::arithmetic::div_mod::{lemma_fundamental_div_mod, lemma_fundamental_div_mod_converse_mod};
use vstd::layout::{align_of, layout_for_type_is_valid, size_of};
use vstd::prelude::*;
use vstd::string::StringExecFns;

verus! {

#[verifier::external_type_specification]
#[verifier::external_body]
pub struct ExSharableTransactionRegion(agave_scheduler_bindings::SharableTransactionRegion);

/// The most transactions one batch message may carry (the value of the
/// bindings' `MAX_TRANSACTIONS_PER_MESSAGE`).
pub const MAX_TRANSACTIONS_PER_MESSAGE: usize = 64;

/// The size of the allocations that the shared-memory allocator serves.
pub const MAX_BATCH_ALLOCATION_BYTES: usize = 4096;

/// A transaction's place in shared memory: its offset within the allocator and
/// its length in bytes (the plain values of the bindings'
/// `SharableTransactionRegion`).
#[derive(Debug, Clone, Copy, PartialEq, Eq, Structural)]
pub struct TransactionRegion {
    pub offset: usize,
    pub length: u32,
}

/// A batch's place in shared memory: how many transactions it holds and the
/// offset of its allocation (the plain values of the bindings'
/// `SharableTransactionBatchRegion`).
#[derive(Debug, Clone, Copy, PartialEq, Eq, Structural)]
pub struct TransactionBatchRegion {
    pub num_transactions: u8,
    pub transactions_offset: usize,
}

/// A transaction in shared memory, by its offset within the allocator and its
/// length in bytes.
#[derive(Debug)]
pub struct TransactionPtr {
    offset: usize,
    count: usize,
}

impl TransactionPtr {
    pub closed spec fn spec_offset(&self) -> usize {
        self.offset
    }

    pub closed spec fn spec_count(&self) -> usize {
        self.count
    }

    pub fn offset(&self) -> (r: usize)
        ensures
            r == self.spec_offset(),
    {
        self.offset
    }

    /// The length of the transaction in bytes.
    pub fn count(&self) -> (r: usize)
        ensures
            r == self.spec_count(),
    {
        self.count
    }

    /// The transaction of `count` bytes at `offset` within the allocator.
    pub fn new(offset: usize, count: usize) -> (r: Self)
        ensures
            r.spec_offset() == offset,
            r.spec_count() == count,
    {
        TransactionPtr { offset, count }
    }

    /// The transaction that `sharable_transaction_region` refers to.
    pub fn from_sharable_transaction_region(sharable_transaction_region: &TransactionRegion) -> (r: Self)
        ensures
            r.spec_offset() == sharable_transaction_region.offset,
            r.spec_count() == sharable_transaction_region.length,
    {
        TransactionPtr {
            offset: sharable_transaction_region.offset,
            count: sharable_transaction_region.length as usize,
        }
    }

    /// The region to share for this transaction. The length is the byte count
    /// cast to `u32`, as the bindings carry it.
    pub fn to_sharable_transaction_region(&self) -> (r: TransactionRegion)
        ensures
            r.offset == self.spec_offset(),
            r.length == self.spec_count() as u32,
    {
        TransactionRegion { offset: self.offset, length: self.count as u32 }
    }
}

/// A region survives the trip through [`TransactionPtr`] unchanged.
pub proof fn lemma_region_round_trip(region: TransactionRegion, ptr: TransactionPtr)
    requires
        ptr.spec_offset() == region.offset,
        ptr.spec_count() == region.length,
    ensures
        (TransactionRegion { offset: ptr.spec_offset(), length: ptr.spec_count() as u32 }) == region,
{
}

/// The requested transactions exceed the batch's remaining capacity.
#[derive(Debug, Clone, Copy, PartialEq, Eq, Structural)]
pub struct BatchCapacityError;

impl BatchCapacityError {
    /// The error's message.
    pub fn message(&self) -> (r: String)
        ensures
            r@ == "transaction batch capacity exceeded"@,
    {
        String::from_str("transaction batch capacity exceeded")
    }
}

/// The smallest multiple of `align` that is at least `value`.
pub open spec fn round_up(value: int, align: int) -> int {
    if value % align == 0 {
        value
    } else {
        value + (align - value % align)
    }
}

/// Bytes taken by one transaction region in the batch.
pub open spec fn core_size() -> int {
    size_of::<SharableTransactionRegion>() as int
}

/// End of the transaction region array.
pub open spec fn core_end(capacity: int) -> int {
    core_size() * capacity
}

/// Start of the metadata array: the end of the region array, rounded up to the
/// metadata's alignment.
pub open spec fn meta_start<M>(capacity: int) -> int {
    round_up(core_end(capacity), align_of::<M>() as int)
}

pub open spec fn meta_size<M>(capacity: int) -> int {
    size_of::<M>() * capacity
}

/// End of the metadata array, and so the size of the batch's allocation.
pub open spec fn meta_end<M>(capacity: int) -> int {
    meta_start::<M>(capacity) + meta_size::<M>(capacity)
}

/// The batch layout that a type accepts: at most the message limit of
/// transactions, in one allocation that the allocator can serve.
pub open spec fn batch_layout_fits<M>(capacity: int) -> bool {
    &&& capacity <= MAX_TRANSACTIONS_PER_MESSAGE
    &&& meta_end::<M>(capacity) <= MAX_BATCH_ALLOCATION_BYTES
}

proof fn lemma_round_up(value: int, align: int)
    requires
        0 <= value,
        0 < align,
    ensures
        round_up(value, align) % align == 0,
        value <= round_up(value, align) < value + align,
{
    lemma_fundamental_div_mod(value, align);
    let q = value / align;
    let r = value % align;
    assert(0 <= r < align) by {
        vstd::arithmetic::div_mod::lemma_mod_pos_bound(value, align);
    }
    if r != 0 {
        assert(value + (align - r) == (q + 1) * align) by (nonlinear_arith)
            requires
                value == align * q + r,
        ;
        lemma_fundamental_div_mod_converse_mod(value + (align - r), align, q + 1, 0);
    }
}

proof fn lemma_mul_le(a: int, b: int, c: int)
    requires
        0 <= a <= b,
        0 <= c,
    ensures
        0 <= a * c <= b * c,
        0 <= c * a <= c * b,
        a * c == c * a,
        b * c == c * b,
{
    assert(0 <= a * c <= b * c && 0 <= c * a <= c * b && a * c == c * a && b * c == c * b)
        by (nonlinear_arith)
        requires
            0 <= a <= b,
            0 <= c,
    ;
}

/// Where slot `index` of each array ends, within a layout that fits.
proof fn lemma_slot_bounds<M>(capacity: int, index: int)
    requires
        batch_layout_fits::<M>(capacity),
        align_of::<M>() > 0,
        0 <= index < capacity,
    ensures
        0 <= index * core_size(),
        (index + 1) * core_size() <= core_end(capacity),
        core_end(capacity) <= meta_start::<M>(capacity),
        0 <= index * size_of::<M>(),
        meta_start::<M>(capacity) + (index + 1) * size_of::<M>() <= meta_end::<M>(capacity),
        meta_end::<M>(capacity) <= MAX_BATCH_ALLOCATION_BYTES,
        (index + 1) * core_size() == index * core_size() + core_size(),
        (index + 1) * size_of::<M>() == index * size_of::<M>() + size_of::<M>(),
{
    lemma_mul_le(0, capacity, core_size());
    lemma_round_up(core_end(capacity), align_of::<M>() as int);
    lemma_mul_le(index, index + 1, core_size());
    lemma_mul_le(index + 1, capacity, core_size());
    lemma_mul_le(index, index + 1, size_of::<M>() as int);
    lemma_mul_le(index + 1, capacity, size_of::<M>() as int);
    assert((index + 1) * core_size() == index * core_size() + core_size()) by (nonlinear_arith);
    assert((index + 1) * size_of::<M>() == index * size_of::<M>() + size_of::<M>()) by (nonlinear_arith);
}

/// The layout of a batch: each transaction slot and each metadata slot lies
/// inside the allocation, the metadata array starts after the region array and
/// at a multiple of the metadata's alignment, and no two slots of one array
/// overlap.
pub proof fn lemma_batch_layout_slots<M>(capacity: int, i: int, j: int)
    requires
        batch_layout_fits::<M>(capacity),
        align_of::<M>() > 0,
        0 <= i < j < capacity,
    ensures
        meta_start::<M>(capacity) % (align_of::<M>() as int) == 0,
        core_end(capacity) <= meta_start::<M>(capacity),
        (j + 1) * core_size() <= core_end(capacity),
        (i + 1) * core_size() <= j * core_size(),
        meta_start::<M>(capacity) + (j + 1) * size_of::<M>() <= meta_end::<M>(capacity),
        (i + 1) * size_of::<M>() <= j * size_of::<M>(),
        meta_end::<M>(capacity) <= MAX_BATCH_ALLOCATION_BYTES,
{
    lemma_slot_bounds::<M>(capacity, j);
    lemma_round_up(core_end(capacity), align_of::<M>() as int);
    lemma_mul_le(i + 1, j, core_size());
    lemma_mul_le(i + 1, j, size_of::<M>() as int);
}

/// A batch of transaction regions, each with a metadata value.
///
/// `CAPACITY` determines the fixed position of the metadata array within the
/// backing allocation. Metadata readers and writers must use the same `CAPACITY`.
pub struct TransactionPtrBatch<M, const CAPACITY: usize> {
    transactions_offset: usize,
    /// Each transaction region written so far, with its metadata, in order.
    entries: Vec<(TransactionRegion, M)>,
}

pub open spec fn entry_regions<M>(entries: Seq<(TransactionRegion, M)>) -> Seq<TransactionRegion> {
    entries.map_values(|e: (TransactionRegion, M)| e.0)
}

pub open spec fn entry_metas<M>(entries: Seq<(TransactionRegion, M)>) -> Seq<M> {
    entries.map_values(|e: (TransactionRegion, M)| e.1)
}

impl<M, const CAPACITY: usize> TransactionPtrBatch<M, CAPACITY> {
    /// The layout fits one allocation and the message limit, and the batch
    /// holds at most `CAPACITY` transactions.
    #[verifier::type_invariant]
    closed spec fn within_capacity(&self) -> bool {
        &&& batch_layout_fits::<M>(CAPACITY as int)
        &&& self.entries@.len() <= CAPACITY
    }

    /// The regions written so far, in order.
    pub closed spec fn regions(&self) -> Seq<TransactionRegion> {
        entry_regions(self.entries@)
    }

    /// The metadata written so far, in order.
    pub closed spec fn metas(&self) -> Seq<M> {
        entry_metas(self.entries@)
    }

    /// The region this batch shares: how many transactions it holds and where
    /// its allocation lies.
    pub open spec fn shared_region(&self) -> TransactionBatchRegion {
        TransactionBatchRegion {
            num_transactions: self.regions().len() as u8,
            transactions_offset: self.spec_transactions_offset(),
        }
    }

    /// Where the batch's allocation lies within the allocator.
    pub closed spec fn spec_transactions_offset(&self) -> usize {
        self.transactions_offset
    }

    pub open spec fn wf(&self) -> bool {
        &&& batch_layout_fits::<M>(CAPACITY as int)
        &&& self.regions().len() == self.metas().len()
        &&& self.regions().len() <= CAPACITY
    }

    /// Whether `M` and `CAPACITY` give a batch that the allocator can serve in
    /// one allocation with at most the message limit of transactions.
    pub fn layout_is_valid() -> (r: bool)
        ensures
            r == batch_layout_fits::<M>(CAPACITY as int),
    {
        layout_for_type_is_valid::<M>();
        layout_for_type_is_valid::<SharableTransactionRegion>();
        proof {
            lemma_mul_le(0, CAPACITY as int, core_size());
            lemma_mul_le(0, CAPACITY as int, size_of::<M>() as int);
        }
        if CAPACITY > MAX_TRANSACTIONS_PER_MESSAGE {
            return false;
        }
        let core_size = core::mem::size_of::<SharableTransactionRegion>();
        let core_end = match core_size.checked_mul(CAPACITY) {
            Some(end) => end,
            None => {
                proof {
                    lemma_round_up(core_end(CAPACITY as int), align_of::<M>() as int);
                }
                return false;
            },
        };
        let align = core::mem::align_of::<M>();
        proof {
            lemma_round_up(core_end as int, align as int);
        }
        if core_end > MAX_BATCH_ALLOCATION_BYTES {
            return false;
        }
        let remainder = core_end % align;
        let meta_start = if remainder == 0 {
            core_end
        } else {
            match core_end.checked_add(align - remainder) {
                Some(start) => start,
                None => return false,
            }
        };
        let meta_size = match core::mem::size_of::<M>().checked_mul(CAPACITY) {
            Some(size) => size,
            None => return false,
        };
        match meta_start.checked_add(meta_size) {
            Some(end) => end <= MAX_BATCH_ALLOCATION_BYTES,
            None => false,
        }
    }

    /// Bytes taken by one transaction region.
    pub fn transaction_core_size() -> (r: usize)
        ensures
            r == core_size(),
    {
        core::mem::size_of::<SharableTransactionRegion>()
    }

    /// End of the transaction region array.
    pub fn transaction_core_end() -> (r: usize)
        requires
            batch_layout_fits::<M>(CAPACITY as int),
        ensures
            r == core_end(CAPACITY as int),
    {
        layout_for_type_is_valid::<M>();
        layout_for_type_is_valid::<SharableTransactionRegion>();
        proof {
            lemma_round_up(core_end(CAPACITY as int), align_of::<M>() as int);
            lemma_mul_le(0, CAPACITY as int, size_of::<M>() as int);
        }
        core::mem::size_of::<SharableTransactionRegion>() * CAPACITY
    }

    /// Start of the metadata array.
    pub fn transaction_meta_start() -> (r: usize)
        requires
            batch_layout_fits::<M>(CAPACITY as int),
        ensures
            r == meta_start::<M>(CAPACITY as int),
    {
        layout_for_type_is_valid::<M>();
        proof {
            lemma_mul_le(0, CAPACITY as int, size_of::<M>() as int);
            lemma_mul_le(0, CAPACITY as int, core_size());
        }
        let core_end = Self::transaction_core_end();
        let align = core::mem::align_of::<M>();
        let remainder = core_end % align;
        if remainder == 0 {
            core_end
        } else {
            core_end + (align - remainder)
        }
    }

    /// Bytes taken by the metadata array.
    pub fn transaction_meta_size() -> (r: usize)
        requires
            batch_layout_fits::<M>(CAPACITY as int),
        ensures
            r == meta_size::<M>(CAPACITY as int),
    {
        layout_for_type_is_valid::<M>();
        proof {
            lemma_mul_le(0, CAPACITY as int, core_size());
            lemma_round_up(core_end(CAPACITY as int), align_of::<M>() as int);
        }
        core::mem::size_of::<M>() * CAPACITY
    }

    /// End of the metadata array: the size of the batch's allocation.
    pub fn transaction_meta_end() -> (r: usize)
        requires
            batch_layout_fits::<M>(CAPACITY as int),
        ensures
            r == meta_end::<M>(CAPACITY as int),
    {
        Self::transaction_meta_start() + Self::transaction_meta_size()
    }

    /// Where the region of transaction `index` lies within the allocation.
    pub fn transaction_slot_offset(index: usize) -> (r: usize)
        requires
            batch_layout_fits::<M>(CAPACITY as int),
            index < CAPACITY,
        ensures
            r == index * core_size(),
    {
        layout_for_type_is_valid::<M>();
        proof {
            lemma_slot_bounds::<M>(CAPACITY as int, index as int);
        }
        index * core::mem::size_of::<SharableTransactionRegion>()
    }

    /// Where the metadata of transaction `index` lies within the allocation.
    pub fn meta_slot_offset(index: usize) -> (r: usize)
        requires
            batch_layout_fits::<M>(CAPACITY as int),
            index < CAPACITY,
        ensures
            r == meta_start::<M>(CAPACITY as int) + index * size_of::<M>(),
    {
        layout_for_type_is_valid::<M>();
        proof {
            lemma_slot_bounds::<M>(CAPACITY as int, index as int);
        }
        Self::transaction_meta_start() + index * core::mem::size_of::<M>()
    }
}


impl<M, const CAPACITY: usize> TransactionPtrBatch<M, CAPACITY> {
    /// An empty batch in the allocation at `transactions_offset`, which must be
    /// at least [`Self::transaction_meta_end`] bytes long.
    pub fn allocate(transactions_offset: usize) -> (r: Self)
        requires
            batch_layout_fits::<M>(CAPACITY as int),
        ensures
            r.wf(),
            r.regions() == Seq::<TransactionRegion>::empty(),
            r.metas() == Seq::<M>::empty(),
            r.spec_transactions_offset() == transactions_offset,
    {
        let r = TransactionPtrBatch { transactions_offset, entries: Vec::new() };
        proof {
            assert(r.regions() =~= Seq::<TransactionRegion>::empty());
            assert(r.metas() =~= Seq::<M>::empty());
        }
        r
    }

    /// The batch that `sharable_transaction_batch_region` refers to, given the
    /// regions and metadata stored in its allocation.
    pub fn from_sharable_transaction_batch_region(
        sharable_transaction_batch_region: &TransactionBatchRegion,
        transactions: Vec<TransactionRegion>,
        metas: Vec<M>,
    ) -> (r: Self)
        requires
            batch_layout_fits::<M>(CAPACITY as int),
            sharable_transaction_batch_region.num_transactions <= CAPACITY,
            transactions@.len() == sharable_transaction_batch_region.num_transactions,
            metas@.len() == sharable_transaction_batch_region.num_transactions,
        ensures
            r.wf(),
            r.regions() == transactions@,
            r.metas() == metas@,
            r.spec_transactions_offset() == sharable_transaction_batch_region.transactions_offset,
    {
        let num_transactions = transactions.len();
        let mut entries: Vec<(TransactionRegion, M)> = Vec::new();
        let mut metas = metas;
        let mut rest: Vec<M> = Vec::new();
        // Take the metadata from the back so that each can be moved out.
        let ghost all_metas = metas@;
        while metas.len() > 0
            invariant
                metas@.len() + rest@.len() == all_metas.len(),
                metas@ == all_metas.subrange(0, metas@.len() as int),
                forall|i: int|
                    0 <= i < rest@.len() ==> #[trigger] rest@[i] == all_metas[all_metas.len() - 1 - i],
            decreases metas@.len(),
        {
            let meta = metas.pop().unwrap();
            rest.push(meta);
        }
        let mut index: usize = 0;
        while index < num_transactions
            invariant
                num_transactions == transactions@.len(),
                all_metas.len() == num_transactions,
                index <= num_transactions,
                rest@.len() == num_transactions - index,
                forall|i: int|
                    0 <= i < rest@.len() ==> #[trigger] rest@[i] == all_metas[all_metas.len() - 1 - i],
                entries@.len() == index,
                forall|i: int|
                    0 <= i < index ==> #[trigger] entries@[i] == (transactions@[i], all_metas[i]),
            decreases num_transactions - index,
        {
            let meta = rest.pop().unwrap();
            entries.push((transactions[index], meta));
            index = index + 1;
        }
        let r = TransactionPtrBatch {
            transactions_offset: sharable_transaction_batch_region.transactions_offset,
            entries,
        };
        proof {
            assert(r.regions() =~= transactions@);
            assert(r.metas() =~= all_metas);
        }
        r
    }

    /// The number of transactions in this batch.
    pub fn len(&self) -> (r: usize)
        ensures
            r == self.regions().len(),
    {
        proof {
            use_type_invariant(self);
        }
        self.entries.len()
    }

    /// Whether the batch is empty.
    pub fn is_empty(&self) -> (r: bool)
        ensures
            r == (self.regions().len() == 0),
    {
        self.len() == 0
    }

    /// Where the batch's allocation lies within the allocator.
    pub fn transactions_offset(&self) -> (r: usize)
        ensures
            r == self.spec_transactions_offset(),
    {
        self.transactions_offset
    }

    /// Moves the entries out, leaving none behind.
    fn take_entries(&mut self) -> (entries: Vec<(TransactionRegion, M)>)
        ensures
            entries@ == old(self).entries@,
            final(self).entries@ == Seq::<(TransactionRegion, M)>::empty(),
            final(self).transactions_offset == old(self).transactions_offset,
    {
        proof {
            use_type_invariant(&*self);
        }
        let mut entries = Vec::new();
        std::mem::swap(&mut entries, &mut self.entries);
        entries
    }

    /// Appends one transaction region and its associated metadata to the batch.
    ///
    /// Returns `Err` with the inputs unchanged when the batch is full.
    pub fn push(&mut self, transaction: TransactionRegion, meta: M) -> (r: Result<(), (TransactionRegion, M)>)
        ensures
            final(self).wf(),
            final(self).spec_transactions_offset() == old(self).spec_transactions_offset(),
            old(self).regions().len() == CAPACITY ==> {
                &&& r == Err::<(), (TransactionRegion, M)>((transaction, meta))
                &&& final(self).regions() == old(self).regions()
                &&& final(self).metas() == old(self).metas()
            },
            old(self).regions().len() < CAPACITY ==> {
                &&& r is Ok
                &&& final(self).regions() == old(self).regions().push(transaction)
                &&& final(self).metas() == old(self).metas().push(meta)
            },
    {
        proof {
            use_type_invariant(&*self);
        }
        if self.entries.len() == CAPACITY {
            return Err((transaction, meta));
        }
        let ghost before = self.entries@;
        let mut entries = self.take_entries();
        entries.push((transaction, meta));
        proof {
            assert(entry_regions(entries@) =~= entry_regions(before).push(transaction));
            assert(entry_metas(entries@) =~= entry_metas(before).push(meta));
        }
        self.entries = entries;
        Ok(())
    }

    /// Appends the transaction region and metadata produced by `map` for each
    /// item, in order.
    ///
    /// If the entire slice does not fit, returns an error without calling `map`
    /// or modifying the batch. If `map` panics, the entries appended before stay.
    pub fn try_extend_from_slice<T, F: Fn(&T) -> (TransactionRegion, M)>(&mut self, items: &[T], map: F) -> (r:
        Result<(), BatchCapacityError>)
        requires
            forall|i: int| 0 <= i < items@.len() ==> call_requires(map, (&items@[i],)),
        ensures
            final(self).wf(),
            final(self).spec_transactions_offset() == old(self).spec_transactions_offset(),
            old(self).regions().len() + items@.len() > CAPACITY ==> {
                &&& r == Err::<(), BatchCapacityError>(BatchCapacityError)
                &&& final(self).regions() == old(self).regions()
                &&& final(self).metas() == old(self).metas()
            },
            old(self).regions().len() + items@.len() <= CAPACITY ==> {
                &&& r is Ok
                &&& final(self).regions().len() == old(self).regions().len() + items@.len()
                &&& final(self).regions().subrange(0, old(self).regions().len() as int) == old(self).regions()
                &&& final(self).metas().subrange(0, old(self).metas().len() as int) == old(self).metas()
                &&& forall|i: int|
                    0 <= i < items@.len() ==> call_ensures(
                        map,
                        (&items@[i],),
                        (
                            #[trigger] final(self).regions()[old(self).regions().len() + i],
                            final(self).metas()[old(self).regions().len() + i],
                        ),
                    )
            },
    {
        proof {
            use_type_invariant(&*self);
        }
        if items.len() > CAPACITY - self.entries.len() {
            return Err(BatchCapacityError);
        }
        let ghost start_entries = self.entries@;
        let start = self.entries.len();
        let mut index: usize = 0;
        while index < items.len()
            invariant
                self.spec_transactions_offset() == old(self).spec_transactions_offset(),
                start == start_entries.len(),
                start_entries == old(self).entries@,
                batch_layout_fits::<M>(CAPACITY as int),
                start + items@.len() <= CAPACITY,
                index <= items@.len(),
                self.entries@.len() == start + index,
                self.entries@.subrange(0, start as int) == start_entries,
                forall|i: int| 0 <= i < items@.len() ==> call_requires(map, (&items@[i],)),
                forall|i: int|
                    0 <= i < index ==> call_ensures(map, (&items@[i],), #[trigger] self.entries@[start + i]),
            decreases items@.len() - index,
        {
            let entry = map(&items[index]);
            let ghost before = self.entries@;
            let mut entries = self.take_entries();
            entries.push(entry);
            self.entries = entries;
            proof {
                assert(self.entries@ == before.push(entry));
                assert(self.entries@.subrange(0, start as int) =~= before.subrange(0, start as int));
                assert forall|i: int| 0 <= i < index + 1 implies call_ensures(
                    map,
                    (&items@[i],),
                    #[trigger] self.entries@[start + i],
                ) by {
                    if i < index {
                        assert(self.entries@[start + i] == before[start + i]);
                    }
                }
            }
            index = index + 1;
        }
        proof {
            let e = self.entries@;
            assert(entry_regions(e).subrange(0, start as int) =~= entry_regions(start_entries));
            assert(entry_metas(e).subrange(0, start as int) =~= entry_metas(start_entries));
            assert forall|i: int| 0 <= i < items@.len() implies call_ensures(
                map,
                (&items@[i],),
                (#[trigger] entry_regions(e)[start + i], entry_metas(e)[start + i]),
            ) by {
                assert(e[start + i] == (entry_regions(e)[start + i], entry_metas(e)[start + i]));
            }
        }
        Ok(())
    }

    /// Returns the transaction region that was previously written at `index`.
    pub fn transaction_region(&self, index: usize) -> (r: TransactionRegion)
        requires
            index < self.regions().len(),
        ensures
            r == self.regions()[index as int],
    {
        self.entries[index].0
    }

    /// Returns the metadata that was previously written at `index`.
    pub fn meta(&self, index: usize) -> (r: M)
        where
            M: Copy,
        requires
            index < self.regions().len(),
        ensures
            r == self.metas()[index as int],
    {
        self.entries[index].1
    }

    /// Returns the sharable message region for this batch.
    pub fn to_sharable_transaction_batch_region(&self) -> (r: TransactionBatchRegion)
        ensures
            r == self.shared_region(),
            r.num_transactions == self.regions().len(),
            r.transactions_offset == self.spec_transactions_offset(),
    {
        proof {
            use_type_invariant(self);
        }
        let num_transactions = self.entries.len();
        TransactionBatchRegion {
            num_transactions: num_transactions as u8,
            transactions_offset: self.transactions_offset,
        }
    }

    /// Each transaction in the batch with its metadata, in order.
    pub fn iter(&self) -> (r: Vec<(TransactionPtr, M)>)
        where
            M: Copy,
        ensures
            r@.len() == self.regions().len(),
            forall|i: int|
                0 <= i < r@.len() ==> {
                    &&& (#[trigger] r@[i]).0.spec_offset() == self.regions()[i].offset
                    &&& r@[i].0.spec_count() == self.regions()[i].length
                    &&& r@[i].1 == self.metas()[i]
                },
    {
        let mut entries: Vec<(TransactionPtr, M)> = Vec::new();
        let mut index: usize = 0;
        while index < self.entries.len()
            invariant
                index <= self.regions().len(),
                self.regions().len() == self.entries@.len(),
                entries@.len() == index,
                forall|i: int|
                    0 <= i < index ==> {
                        &&& (#[trigger] entries@[i]).0.spec_offset() == self.regions()[i].offset
                        &&& entries@[i].0.spec_count() == self.regions()[i].length
                        &&& entries@[i].1 == self.metas()[i]
                    },
            decreases self.regions().len() - index,
        {
            let (region, meta) = self.entries[index];
            let tx = TransactionPtr::from_sharable_transaction_region(&region);
            entries.push((tx, meta));
            index = index + 1;
        }
        entries
    }
}

/// A pushed transaction is read back at the index it was pushed to, and the
/// entries before it are unchanged.
pub proof fn lemma_push_then_read<M>(
    regions: Seq<TransactionRegion>,
    metas: Seq<M>,
    transaction: TransactionRegion,
    meta: M,
)
    requires
        regions.len() == metas.len(),
    ensures
        regions.push(transaction)[regions.len() as int] == transaction,
        metas.push(meta)[metas.len() as int] == meta,
        forall|i: int| 0 <= i < regions.len() ==> #[trigger] regions.push(transaction)[i] == regions[i],
        forall|i: int| 0 <= i < metas.len() ==> #[trigger] metas.push(meta)[i] == metas[i],
{
}

/// Reading a shared batch region back and sharing it again gives the same
/// region: a batch built by `from_sharable_transaction_batch_region` from
/// `region` (as many regions as it counts, at its offset) shares exactly
/// `region`.
pub proof fn lemma_batch_region_round_trip<M, const CAPACITY: usize>(
    batch: TransactionPtrBatch<M, CAPACITY>,
    region: TransactionBatchRegion,
)
    requires
        batch.regions().len() == region.num_transactions,
        batch.spec_transactions_offset() == region.transactions_offset,
    ensures
        batch.shared_region() == region,
{
}

} // verus!
