//! Raw filesystem notifications and their translation into semantic changes.
//!
//! The event source delivers debounced raw notifications. Each one is either
//! a structural mutation (create, write, remove, rename), advisory noise
//! (pending-write and pending-remove notices, attribute-only changes, rescan
//! markers), or a per-path error report. Only structural mutations become
//! [`WatcherChange`] values; everything else is discarded.

use vstd::prelude::*;

verus! {

/// One semantic filesystem mutation observed under a watched root.
///
/// Paths are carried through exactly as the event source delivered them;
/// no validation or normalization is performed.
#[derive(Debug)]
pub enum WatcherChange {
    /// A new filesystem entry appeared at the path.
    Create(String),
    /// The content or metadata of the entry at the path was modified.
    Write(String),
    /// The entry at the path was deleted.
    Remove(String),
    /// An entry moved from the first path to the second.
    Rename(String, String),
}

/// One raw, debounced notification as delivered by the event source.
#[derive(Debug)]
pub enum RawEvent {
    /// Advisory notice that a write to the path is pending.
    NoticeWrite(String),
    /// Advisory notice that a removal of the path is pending.
    NoticeRemove(String),
    /// Permission or attribute-only change at the path.
    Chmod(String),
    /// The event source rescanned the watched tree.
    Rescan,
    /// A new entry appeared at the path.
    Create(String),
    /// The entry at the path was written to.
    Write(String),
    /// The entry at the path was removed.
    Remove(String),
    /// An entry moved from the first path to the second.
    Rename(String, String),
    /// The event source reported an internal problem, optionally scoped to a
    /// path; carries the source's description of the problem.
    Error(String, Option<String>),
}

/// A raw event that stands for an actual structural mutation.
pub open spec fn is_structural(ev: RawEvent) -> bool {
    match ev {
        RawEvent::Create(_) => true,
        RawEvent::Write(_) => true,
        RawEvent::Remove(_) => true,
        RawEvent::Rename(_, _) => true,
        _ => false,
    }
}

/// A raw event that is advisory noise and carries no semantic change.
pub open spec fn is_noise(ev: RawEvent) -> bool {
    match ev {
        RawEvent::NoticeWrite(_) => true,
        RawEvent::NoticeRemove(_) => true,
        RawEvent::Chmod(_) => true,
        RawEvent::Rescan => true,
        _ => false,
    }
}

/// A raw event by which the event source reports a per-path problem.
pub open spec fn is_error(ev: RawEvent) -> bool {
    ev is Error
}

/// The translation of one raw event: the matching `WatcherChange` for a
/// structural mutation, nothing for noise and for per-path errors.
pub open spec fn classify(ev: RawEvent) -> Option<WatcherChange> {
    match ev {
        RawEvent::NoticeWrite(_) => None,
        RawEvent::NoticeRemove(_) => None,
        RawEvent::Chmod(_) => None,
        RawEvent::Rescan => None,
        RawEvent::Create(path) => Some(WatcherChange::Create(path)),
        RawEvent::Write(path) => Some(WatcherChange::Write(path)),
        RawEvent::Remove(path) => Some(WatcherChange::Remove(path)),
        RawEvent::Rename(src, dst) => Some(WatcherChange::Rename(src, dst)),
        RawEvent::Error(_, _) => None,
    }
}

/// Exactly the structural raw events translate into a change.
pub proof fn lemma_classify_structural(ev: RawEvent)
    ensures
        classify(ev) is Some <==> is_structural(ev),
        is_noise(ev) || is_error(ev) ==> classify(ev) is None,
{
}

impl WatcherChange {
    /// Translates one debounced raw event into its semantic change, or into
    /// nothing when the event is noise or a per-path error report.
    pub fn from_debounced_event(ev: RawEvent) -> (r: Option<WatcherChange>)
        ensures
            r == classify(ev),
    {
        match ev {
            RawEvent::NoticeWrite(_) => None,
            RawEvent::NoticeRemove(_) => None,
            RawEvent::Chmod(_) => None,
            RawEvent::Rescan => None,
            RawEvent::Create(path) => Some(WatcherChange::Create(path)),
            RawEvent::Write(path) => Some(WatcherChange::Write(path)),
            RawEvent::Remove(path) => Some(WatcherChange::Remove(path)),
            RawEvent::Rename(src, dst) => Some(WatcherChange::Rename(src, dst)),
            RawEvent::Error(_, _) => None,
        }
    }
}

} // verus!
