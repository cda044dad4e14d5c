//! Decision logic for a watch-based reflector: a client that mirrors remote
//! resources locally by issuing watch requests, applying the events they
//! stream, tracking the resource version to resume from, and optionally
//! delaying deletions.
//!
//! The asynchronous loop (watch invocations, stream reads, timers) runs
//! outside this library; every decision it takes is made by the functions
//! here.

mod delayed_delete;
mod reflector;
mod resource_version;
mod watch;

pub use delayed_delete::{deadline_of, delete_order_kept, drained, due_len, DelayedDelete};
pub use reflector::{event_op, Error, Reflector, StateOp};
pub use resource_version::{
    cursor_after, cursor_after_concat, cursor_after_one, cursor_is_last_version, item_version,
    last_version, Candidate, State,
};
pub use watch::{
    opt_view, InvocationError, Object, ObjectMeta, WatchEvent, WatchOptions, WatchResponse,
};
