//! Filesystem change notifications as the restart rules see them.

use vstd::prelude::*;
use crate::options::texts_of;

verus! {

/// What happened to the affected paths.
#[derive(Debug, Clone, Copy, PartialEq, Eq)]
pub enum ChangeKind {
    /// Something was created.
    Create,
    /// Content, name or metadata changed.
    Modify,
    /// Something was removed.
    Remove,
    /// Anything else: an access, or a change of unknown kind.
    Other,
}

/// Creations, modifications and removals can trigger a restart; nothing else
/// can by its kind.
pub open spec fn eligible(kind: ChangeKind) -> bool {
    kind is Create || kind is Modify || kind is Remove
}

impl ChangeKind {
    /// Whether a change of this kind can trigger a restart.
    pub fn is_eligible(&self) -> (r: bool)
        ensures
            r == eligible(*self),
    {
        match self {
            ChangeKind::Create | ChangeKind::Modify | ChangeKind::Remove => true,
            ChangeKind::Other => false,
        }
    }
}

/// One notification from the watcher: a kind and the paths it is about, in the
/// order the watcher gave them. The list may be empty.
#[derive(Debug, Clone, PartialEq, Eq)]
pub struct WatchEvent {
    pub kind: ChangeKind,
    pub paths: Vec<String>,
}

/// The mathematical content of a `WatchEvent`.
pub struct EventView {
    pub kind: ChangeKind,
    pub paths: Seq<Seq<char>>,
}

impl View for WatchEvent {
    type V = EventView;

    open spec fn view(&self) -> EventView {
        EventView { kind: self.kind, paths: texts_of(self.paths@) }
    }
}

} // verus!
