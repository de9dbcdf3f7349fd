pub mod cancellation_token;
pub mod oneshot;
