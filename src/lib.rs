pub mod compile;
pub mod debounce;
pub mod error;
pub mod scheduler;
pub mod signal;
pub mod slot;
