//! Core of a background filesystem-change notifier.
//!
//! A watched directory tree produces a stream of raw, debounced notifications.
//! This library holds the verified heart of the watcher: the translation of
//! each raw notification into a semantic [`events::WatcherChange`] (or into
//! nothing, for noise and recovered per-path errors), and the decision logic
//! of the background worker loop that forwards translated changes to the
//! consumer in order.
//!
//! The unverifiable surroundings — the OS-level event source, the worker
//! thread itself, the channels that carry values between threads, and the
//! drop-time lifecycle guard — live outside this crate's verified code and
//! drive these functions.

pub mod events;
pub mod worker;
