//! The watcher's event classification: raw filesystem events collapse into
//! the three coarse messages the reader needs. The subscription and the
//! file stat happen outside the library.

use vstd::prelude::*;

verus! {

/// The coarse message the watcher hands the reader.
#[derive(Debug, Clone, PartialEq, Eq)]
pub enum WatchMessage {
    /// The file was (re)created: the stream restarted.
    FileCreated,
    /// The file grew; `length` is its size when it was examined.
    ContentModified { length: u64 },
    /// The writer closed the file.
    Closed,
}

/// The shape of a raw filesystem event, as far as the classification
/// reads it.
#[derive(Debug, Clone, Copy, PartialEq, Eq)]
pub enum WatchEventKind {
    /// An access event closing the file, in any close mode.
    AccessClose,
    /// A file-creation event.
    CreateFile,
    /// A data modification, in any mode.
    ModifyData,
    /// Any other kind.
    Other,
}

/// What the watcher should do with a raw event.
#[derive(Debug, Clone, Copy, PartialEq, Eq)]
pub enum WatchAction {
    /// Send `Closed`.
    EmitClosed,
    /// Send `FileCreated`.
    EmitCreated,
    /// Stat the file and send `ContentModified` with its length.
    StatAndEmitModified,
    /// Ignore the event.
    Ignore,
}

/// The classification: only events whose first path ends with the target
/// file matter; a close emits `Closed`, a creation `FileCreated`, a data
/// modification asks for a stat, and everything else is ignored.
pub open spec fn classify_spec(kind: WatchEventKind, path_is_target: bool) -> WatchAction {
    if !path_is_target {
        WatchAction::Ignore
    } else {
        match kind {
            WatchEventKind::AccessClose => WatchAction::EmitClosed,
            WatchEventKind::CreateFile => WatchAction::EmitCreated,
            WatchEventKind::ModifyData => WatchAction::StatAndEmitModified,
            WatchEventKind::Other => WatchAction::Ignore,
        }
    }
}

/// Collapse one raw event into the action the watcher takes.
pub fn classify_event(kind: WatchEventKind, path_is_target: bool) -> (r: WatchAction)
    ensures
        r == classify_spec(kind, path_is_target),
{
    if !path_is_target {
        WatchAction::Ignore
    } else {
        match kind {
            WatchEventKind::AccessClose => WatchAction::EmitClosed,
            WatchEventKind::CreateFile => WatchAction::EmitCreated,
            WatchEventKind::ModifyData => WatchAction::StatAndEmitModified,
            WatchEventKind::Other => WatchAction::Ignore,
        }
    }
}

} // verus!
