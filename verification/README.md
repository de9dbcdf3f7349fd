# block_verification_stage

The block verification stage sits between replay and the verification of a
block: replay begins a block, submits its entries, marks it completed or aborts
it, and waits for the outcome. A scheduler keeps the blocks in progress and
answers each message. The crate also keeps the bookkeeping of the transaction
batches that the external scheduler shares with its workers.

Layout:

- `src/` — the library, verified with Verus.
  - `scheduler.rs`: the blocks in progress (no two share a bank id or a slot,
    kept as a type invariant), the message handlers, the step relation they
    follow (the next blocks and what is sent back: the answer to a begin, the
    outcome told to a block's waiter), the record of every answer and outcome
    actually handed to replay's channels, and the laws about it.
  - `stage.rs`: replay's side — `begin_block` and the type-state session,
    which records the messages it hands to the scheduler's channel.
  - `transaction_ptr.rs`: transaction regions and batches, the batch layout, and
    its laws.
  - `channel.rs`, `utils/`: the crossbeam channels, the oneshot channel and the
    cancellation flag, behind small trusted wrappers; each send records the
    value it was handed and whether the channel took it.
- `app/` — plain Rust around the library: the scheduler's thread, and the batch
  in the memory of the shared allocator (raw pointers).
- `tests/` — tests of the library; the scheduler is driven on the test thread.
