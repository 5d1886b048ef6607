//! Remote directory entries as the bridge reports them.

use vstd::prelude::*;

verus! {

/// Whether a listed entry is a plain file or a directory.
#[derive(Debug, Clone, Copy, PartialEq, Eq, Structural)]
pub enum EntryKind {
    File,
    Directory,
}

/// One item of a remote directory listing: a name and its kind.
#[derive(Debug)]
pub struct RemoteEntry {
    pub name: String,
    pub kind: EntryKind,
}

/// Mathematical model of a [`RemoteEntry`].
pub ghost struct EntryModel {
    pub name: Seq<char>,
    pub kind: EntryKind,
}

impl View for RemoteEntry {
    type V = EntryModel;

    open spec fn view(&self) -> EntryModel {
        EntryModel { name: self.name@, kind: self.kind }
    }
}

impl DeepView for RemoteEntry {
    type V = EntryModel;

    open spec fn deep_view(&self) -> EntryModel {
        self@
    }
}

} // verus!
