//! Verified core of the block verification stage and of the transaction batch
//! bookkeeping used by the scheduler bindings.

pub mod channel;
pub mod config;
pub mod messages;
pub mod scheduler;
pub mod stage;
pub mod transaction_ptr;
pub mod utils;
pub mod verification_components;

pub use config::SchedulerConfig;
pub use stage::BlockVerificationStage;
