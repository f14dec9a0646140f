//! An in-memory order intake: the order records, the store that keeps them in
//! arrival order, and the lock-guarded handle through which concurrent callers
//! reach that store.

pub mod error;
pub mod model;
pub mod shared;
pub mod store;
