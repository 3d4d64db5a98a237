use vstd::prelude::*;

verus! {

/// What a caller found at a path.
#[derive(Debug, Clone, Copy, PartialEq, Eq, Structural)]
pub enum PathKind {
    /// Nothing is there.
    Missing,
    /// A regular file.
    File,
    /// A directory.
    Directory,
    /// Something else.
    Other,
}

/// A path that a caller has looked at, with what it found there. In a
/// directory listing the path is the entry's name within the directory.
#[derive(Debug, Clone, PartialEq, Eq)]
pub struct Entry {
    pub path: String,
    pub kind: PathKind,
}

/// What an [`Entry`] holds, as mathematical values.
pub ghost struct EntryView {
    pub path: Seq<char>,
    pub kind: PathKind,
}

impl View for Entry {
    type V = EntryView;

    open spec fn view(&self) -> EntryView {
        EntryView { path: self.path@, kind: self.kind }
    }
}

impl DeepView for Entry {
    type V = EntryView;

    open spec fn deep_view(&self) -> EntryView {
        self@
    }
}

impl EntryView {
    pub open spec fn is_dir(self) -> bool {
        self.kind == PathKind::Directory
    }

    pub open spec fn is_file(self) -> bool {
        self.kind == PathKind::File
    }
}

impl Entry {
    pub fn is_dir(&self) -> (yes: bool)
        ensures
            yes == self@.is_dir(),
    {
        self.kind == PathKind::Directory
    }

    pub fn is_file(&self) -> (yes: bool)
        ensures
            yes == self@.is_file(),
    {
        self.kind == PathKind::File
    }
}

} // verus!
