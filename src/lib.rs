pub mod classify;
pub mod concurrency;
pub mod sink;
pub mod timestamp;
