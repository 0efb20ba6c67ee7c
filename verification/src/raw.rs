//! The platform's view of a change: a hierarchical discriminant and the
//! affected paths, as the notification facility reports them.
//!
//! Every level of the hierarchy has an `Unrecognized` variant. It stands for
//! a discriminant the platform reported and this library does not know; it
//! is what keeps normalization total when a platform grows new kinds.

use vstd::prelude::*;

verus! {

/// How a file was opened or closed.
#[derive(Clone, Copy, Debug, PartialEq, Eq, Structural)]
pub enum RawAccessMode {
    Any,
    Execute,
    Read,
    Write,
    Other,
    /// Reported by the platform and not known to this library.
    Unrecognized,
}

/// A non-mutating access.
#[derive(Clone, Copy, Debug, PartialEq, Eq, Structural)]
pub enum RawAccessKind {
    Any,
    Read,
    Open(RawAccessMode),
    Close(RawAccessMode),
    Other,
    /// Reported by the platform and not known to this library.
    Unrecognized,
}

/// What was created.
#[derive(Clone, Copy, Debug, PartialEq, Eq, Structural)]
pub enum RawCreateKind {
    Any,
    File,
    Folder,
    Other,
    /// Reported by the platform and not known to this library.
    Unrecognized,
}

/// A change of a file's data.
#[derive(Clone, Copy, Debug, PartialEq, Eq, Structural)]
pub enum RawDataChange {
    Any,
    Size,
    Content,
    Other,
    /// Reported by the platform and not known to this library.
    Unrecognized,
}

/// A change of a file's or folder's metadata.
#[derive(Clone, Copy, Debug, PartialEq, Eq, Structural)]
pub enum RawMetadataKind {
    Any,
    AccessTime,
    WriteTime,
    Permissions,
    Ownership,
    Extended,
    Other,
    /// Reported by the platform and not known to this library.
    Unrecognized,
}

/// Which end of a rename an event speaks of.
#[derive(Clone, Copy, Debug, PartialEq, Eq, Structural)]
pub enum RawRenameMode {
    Any,
    To,
    From,
    /// Both ends together: the paths are the old name, then the new one.
    Both,
    Other,
    /// Reported by the platform and not known to this library.
    Unrecognized,
}

/// A mutation of content, metadata or name.
#[derive(Clone, Copy, Debug, PartialEq, Eq, Structural)]
pub enum RawModifyKind {
    Any,
    Data(RawDataChange),
    Metadata(RawMetadataKind),
    Name(RawRenameMode),
    Other,
    /// Reported by the platform and not known to this library.
    Unrecognized,
}

/// What was removed.
#[derive(Clone, Copy, Debug, PartialEq, Eq, Structural)]
pub enum RawRemoveKind {
    Any,
    File,
    Folder,
    Other,
    /// Reported by the platform and not known to this library.
    Unrecognized,
}

/// The top-level discriminant of a raw event.
#[derive(Clone, Copy, Debug, PartialEq, Eq, Structural)]
pub enum RawEventKind {
    Any,
    Access(RawAccessKind),
    Create(RawCreateKind),
    Modify(RawModifyKind),
    Remove(RawRemoveKind),
    Other,
    /// Reported by the platform and not known to this library.
    Unrecognized,
}

/// Two parts of a tag, joined by a hyphen.
pub open spec fn hyphenated(head: Seq<char>, tail: Seq<char>) -> Seq<char> {
    head + seq!['-'] + tail
}

impl RawAccessMode {
    /// True unless the platform reported a mode this library does not know.
    pub open spec fn recognized(self) -> bool {
        !(self is Unrecognized)
    }

    /// This mode, with `Other` in place of `Unrecognized`.
    pub open spec fn settled(self) -> Self {
        if self is Unrecognized {
            RawAccessMode::Other
        } else {
            self
        }
    }

    /// The word for this variant in a tag. What is not recognized reads
    /// as `other`.
    pub open spec fn words(self) -> Seq<char> {
        match self {
            RawAccessMode::Any => "any"@,
            RawAccessMode::Execute => "execute"@,
            RawAccessMode::Read => "read"@,
            RawAccessMode::Write => "write"@,
            RawAccessMode::Other => "other"@,
            RawAccessMode::Unrecognized => "other"@,
        }
    }
}

impl RawAccessKind {
    /// True if no level of the discriminant is `Unrecognized`.
    pub open spec fn recognized(self) -> bool {
        match self {
            RawAccessKind::Open(mode) => mode.recognized(),
            RawAccessKind::Close(mode) => mode.recognized(),
            RawAccessKind::Unrecognized => false,
            _ => true,
        }
    }

    /// This kind, with `Other` in place of `Unrecognized` at the level
    /// where it stands.
    pub open spec fn settled(self) -> Self {
        match self {
            RawAccessKind::Open(mode) => RawAccessKind::Open(mode.settled()),
            RawAccessKind::Close(mode) => RawAccessKind::Close(mode.settled()),
            RawAccessKind::Unrecognized => RawAccessKind::Other,
            _ => self,
        }
    }

    /// The words for this discriminant in a tag: its own, then those of
    /// the level below, joined by a hyphen. What is not recognized reads as
    /// `other`.
    pub open spec fn words(self) -> Seq<char> {
        match self {
            RawAccessKind::Any => "any"@,
            RawAccessKind::Read => "read"@,
            RawAccessKind::Open(mode) => hyphenated("open"@, mode.words()),
            RawAccessKind::Close(mode) => hyphenated("close"@, mode.words()),
            RawAccessKind::Other => "other"@,
            RawAccessKind::Unrecognized => "other"@,
        }
    }
}

impl RawCreateKind {
    /// True unless the platform reported a kind this library does not know.
    pub open spec fn recognized(self) -> bool {
        !(self is Unrecognized)
    }

    /// This kind, with `Other` in place of `Unrecognized`.
    pub open spec fn settled(self) -> Self {
        if self is Unrecognized {
            RawCreateKind::Other
        } else {
            self
        }
    }

    /// The word for this variant in a tag. What is not recognized reads
    /// as `other`.
    pub open spec fn words(self) -> Seq<char> {
        match self {
            RawCreateKind::Any => "any"@,
            RawCreateKind::File => "file"@,
            RawCreateKind::Folder => "folder"@,
            RawCreateKind::Other => "other"@,
            RawCreateKind::Unrecognized => "other"@,
        }
    }
}

impl RawDataChange {
    /// True unless the platform reported a change this library does not
    /// know.
    pub open spec fn recognized(self) -> bool {
        !(self is Unrecognized)
    }

    /// This change, with `Other` in place of `Unrecognized`.
    pub open spec fn settled(self) -> Self {
        if self is Unrecognized {
            RawDataChange::Other
        } else {
            self
        }
    }

    /// The word for this variant in a tag. What is not recognized reads
    /// as `other`.
    pub open spec fn words(self) -> Seq<char> {
        match self {
            RawDataChange::Any => "any"@,
            RawDataChange::Size => "size"@,
            RawDataChange::Content => "content"@,
            RawDataChange::Other => "other"@,
            RawDataChange::Unrecognized => "other"@,
        }
    }
}

impl RawMetadataKind {
    /// True unless the platform reported a kind this library does not know.
    pub open spec fn recognized(self) -> bool {
        !(self is Unrecognized)
    }

    /// This kind, with `Other` in place of `Unrecognized`.
    pub open spec fn settled(self) -> Self {
        if self is Unrecognized {
            RawMetadataKind::Other
        } else {
            self
        }
    }

    /// The word for this variant in a tag. What is not recognized reads
    /// as `other`.
    pub open spec fn words(self) -> Seq<char> {
        match self {
            RawMetadataKind::Any => "any"@,
            RawMetadataKind::AccessTime => "access-time"@,
            RawMetadataKind::WriteTime => "write-time"@,
            RawMetadataKind::Permissions => "permissions"@,
            RawMetadataKind::Ownership => "ownership"@,
            RawMetadataKind::Extended => "extended"@,
            RawMetadataKind::Other => "other"@,
            RawMetadataKind::Unrecognized => "other"@,
        }
    }
}

impl RawRenameMode {
    /// True unless the platform reported a mode this library does not know.
    pub open spec fn recognized(self) -> bool {
        !(self is Unrecognized)
    }

    /// This mode, with `Other` in place of `Unrecognized`.
    pub open spec fn settled(self) -> Self {
        if self is Unrecognized {
            RawRenameMode::Other
        } else {
            self
        }
    }

    /// The word for this variant in a tag. What is not recognized reads
    /// as `other`.
    pub open spec fn words(self) -> Seq<char> {
        match self {
            RawRenameMode::Any => "any"@,
            RawRenameMode::To => "to"@,
            RawRenameMode::From => "from"@,
            RawRenameMode::Both => "both"@,
            RawRenameMode::Other => "other"@,
            RawRenameMode::Unrecognized => "other"@,
        }
    }
}

impl RawModifyKind {
    /// True if no level of the discriminant is `Unrecognized`.
    pub open spec fn recognized(self) -> bool {
        match self {
            RawModifyKind::Data(change) => change.recognized(),
            RawModifyKind::Metadata(kind) => kind.recognized(),
            RawModifyKind::Name(mode) => mode.recognized(),
            RawModifyKind::Unrecognized => false,
            _ => true,
        }
    }

    /// This kind, with `Other` in place of `Unrecognized` at the level
    /// where it stands.
    pub open spec fn settled(self) -> Self {
        match self {
            RawModifyKind::Data(change) => RawModifyKind::Data(change.settled()),
            RawModifyKind::Metadata(kind) => RawModifyKind::Metadata(kind.settled()),
            RawModifyKind::Name(mode) => RawModifyKind::Name(mode.settled()),
            RawModifyKind::Unrecognized => RawModifyKind::Other,
            _ => self,
        }
    }

    /// The words for this discriminant in a tag: its own, then those of
    /// the level below, joined by a hyphen. What is not recognized reads as
    /// `other`.
    pub open spec fn words(self) -> Seq<char> {
        match self {
            RawModifyKind::Any => "any"@,
            RawModifyKind::Data(change) => hyphenated("data"@, change.words()),
            RawModifyKind::Metadata(kind) => hyphenated("metadata"@, kind.words()),
            RawModifyKind::Name(mode) => hyphenated("rename"@, mode.words()),
            RawModifyKind::Other => "other"@,
            RawModifyKind::Unrecognized => "other"@,
        }
    }
}

impl RawRemoveKind {
    /// True unless the platform reported a kind this library does not know.
    pub open spec fn recognized(self) -> bool {
        !(self is Unrecognized)
    }

    /// This kind, with `Other` in place of `Unrecognized`.
    pub open spec fn settled(self) -> Self {
        if self is Unrecognized {
            RawRemoveKind::Other
        } else {
            self
        }
    }

    /// The word for this variant in a tag. What is not recognized reads
    /// as `other`.
    pub open spec fn words(self) -> Seq<char> {
        match self {
            RawRemoveKind::Any => "any"@,
            RawRemoveKind::File => "file"@,
            RawRemoveKind::Folder => "folder"@,
            RawRemoveKind::Other => "other"@,
            RawRemoveKind::Unrecognized => "other"@,
        }
    }
}

impl RawEventKind {
    /// True if no level of the discriminant is `Unrecognized`.
    pub open spec fn recognized(self) -> bool {
        match self {
            RawEventKind::Access(kind) => kind.recognized(),
            RawEventKind::Create(kind) => kind.recognized(),
            RawEventKind::Modify(kind) => kind.recognized(),
            RawEventKind::Remove(kind) => kind.recognized(),
            RawEventKind::Unrecognized => false,
            _ => true,
        }
    }

    /// This discriminant, with `Other` in place of `Unrecognized` at the
    /// level where it stands: the nearest discriminant that is recognized.
    pub open spec fn settled(self) -> Self {
        match self {
            RawEventKind::Access(kind) => RawEventKind::Access(kind.settled()),
            RawEventKind::Create(kind) => RawEventKind::Create(kind.settled()),
            RawEventKind::Modify(kind) => RawEventKind::Modify(kind.settled()),
            RawEventKind::Remove(kind) => RawEventKind::Remove(kind.settled()),
            RawEventKind::Unrecognized => RawEventKind::Other,
            _ => self,
        }
    }

    /// The words for this discriminant in a tag: its own, then those of
    /// the level below, joined by a hyphen. What is not recognized reads as
    /// `other`.
    pub open spec fn words(self) -> Seq<char> {
        match self {
            RawEventKind::Any => "any"@,
            RawEventKind::Access(kind) => hyphenated("access"@, kind.words()),
            RawEventKind::Create(kind) => hyphenated("create"@, kind.words()),
            RawEventKind::Modify(kind) => hyphenated("modify"@, kind.words()),
            RawEventKind::Remove(kind) => hyphenated("remove"@, kind.words()),
            RawEventKind::Other => "other"@,
            RawEventKind::Unrecognized => "other"@,
        }
    }
}

/// A change notification as the platform delivered it. `P` is the
/// platform's type of path; this library never looks inside one.
#[derive(Debug, PartialEq, Eq)]
pub struct RawEvent<P> {
    /// The platform's discriminant.
    pub kind: RawEventKind,
    /// The affected paths, in the order the platform gave them.
    pub paths: Vec<P>,
}

/// The mathematical value of a [`RawEvent`].
pub struct RawEventView<P> {
    pub kind: RawEventKind,
    pub paths: Seq<P>,
}

impl<P> View for RawEvent<P> {
    type V = RawEventView<P>;

    open spec fn view(&self) -> RawEventView<P> {
        RawEventView { kind: self.kind, paths: self.paths@ }
    }
}

} // verus!
