//! Shared state and hand-off protocol between a host lifecycle thread and an
//! application thread.
//!
//! The host thread publishes a pending value, wakes the application thread
//! with a one-byte command, and waits until the application thread has applied
//! the value. Everything here is the decision logic of that protocol over plain
//! values; the mutex, the condition variable and the channel's file descriptors
//! are driven by the caller.
pub mod channel;
pub mod cmd;
pub mod host;
pub mod laws;
pub mod state;
