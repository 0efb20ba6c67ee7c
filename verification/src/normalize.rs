//! Normalization: from the platform's hierarchical discriminant to one leaf
//! of the canonical taxonomy, with the paths carried over untouched.

use crate::event::{NotifyEvent, NotifyEventView};
use crate::kind::{EventGroup, NotifyEventKind};
use crate::raw::{
    hyphenated, RawAccessKind, RawAccessMode, RawCreateKind, RawDataChange, RawEvent,
    RawEventKind, RawEventView, RawMetadataKind, RawModifyKind, RawRemoveKind, RawRenameMode,
};
use vstd::prelude::*;

verus! {

/// The leaf for a file being opened in the given mode.
pub open spec fn open_leaf(mode: RawAccessMode) -> NotifyEventKind {
    match mode {
        RawAccessMode::Any => NotifyEventKind::AccessOpenAny,
        RawAccessMode::Execute => NotifyEventKind::AccessOpenExecute,
        RawAccessMode::Read => NotifyEventKind::AccessOpenRead,
        RawAccessMode::Write => NotifyEventKind::AccessOpenWrite,
        RawAccessMode::Other => NotifyEventKind::AccessOpenOther,
        RawAccessMode::Unrecognized => NotifyEventKind::AccessOpenOther,
    }
}

/// The leaf for a file being closed that was open in the given mode.
pub open spec fn close_leaf(mode: RawAccessMode) -> NotifyEventKind {
    match mode {
        RawAccessMode::Any => NotifyEventKind::AccessCloseAny,
        RawAccessMode::Execute => NotifyEventKind::AccessCloseExecute,
        RawAccessMode::Read => NotifyEventKind::AccessCloseRead,
        RawAccessMode::Write => NotifyEventKind::AccessCloseWrite,
        RawAccessMode::Other => NotifyEventKind::AccessCloseOther,
        RawAccessMode::Unrecognized => NotifyEventKind::AccessCloseOther,
    }
}

/// The leaf for an access.
pub open spec fn access_leaf(kind: RawAccessKind) -> NotifyEventKind {
    match kind {
        RawAccessKind::Any => NotifyEventKind::AccessAny,
        RawAccessKind::Read => NotifyEventKind::AccessRead,
        RawAccessKind::Open(mode) => open_leaf(mode),
        RawAccessKind::Close(mode) => close_leaf(mode),
        RawAccessKind::Other => NotifyEventKind::AccessOther,
        RawAccessKind::Unrecognized => NotifyEventKind::AccessOther,
    }
}

/// The leaf for a creation.
pub open spec fn create_leaf(kind: RawCreateKind) -> NotifyEventKind {
    match kind {
        RawCreateKind::Any => NotifyEventKind::CreateAny,
        RawCreateKind::File => NotifyEventKind::CreateFile,
        RawCreateKind::Folder => NotifyEventKind::CreateFolder,
        RawCreateKind::Other => NotifyEventKind::CreateOther,
        RawCreateKind::Unrecognized => NotifyEventKind::CreateOther,
    }
}

/// The leaf for a change of data.
pub open spec fn data_leaf(change: RawDataChange) -> NotifyEventKind {
    match change {
        RawDataChange::Any => NotifyEventKind::ModifyDataAny,
        RawDataChange::Size => NotifyEventKind::ModifyDataSize,
        RawDataChange::Content => NotifyEventKind::ModifyDataContent,
        RawDataChange::Other => NotifyEventKind::ModifyDataOther,
        RawDataChange::Unrecognized => NotifyEventKind::ModifyDataOther,
    }
}

/// The leaf for a change of metadata.
pub open spec fn metadata_leaf(kind: RawMetadataKind) -> NotifyEventKind {
    match kind {
        RawMetadataKind::Any => NotifyEventKind::ModifyMetadataAny,
        RawMetadataKind::AccessTime => NotifyEventKind::ModifyMetadataAccessTime,
        RawMetadataKind::WriteTime => NotifyEventKind::ModifyMetadataWriteTime,
        RawMetadataKind::Permissions => NotifyEventKind::ModifyMetadataPermissions,
        RawMetadataKind::Ownership => NotifyEventKind::ModifyMetadataOwnership,
        RawMetadataKind::Extended => NotifyEventKind::ModifyMetadataExtended,
        RawMetadataKind::Other => NotifyEventKind::ModifyMetadataOther,
        RawMetadataKind::Unrecognized => NotifyEventKind::ModifyMetadataOther,
    }
}

/// The leaf for a rename.
pub open spec fn rename_leaf(mode: RawRenameMode) -> NotifyEventKind {
    match mode {
        RawRenameMode::Any => NotifyEventKind::ModifyRenameAny,
        RawRenameMode::To => NotifyEventKind::ModifyRenameTo,
        RawRenameMode::From => NotifyEventKind::ModifyRenameFrom,
        RawRenameMode::Both => NotifyEventKind::ModifyRenameBoth,
        RawRenameMode::Other => NotifyEventKind::ModifyRenameOther,
        RawRenameMode::Unrecognized => NotifyEventKind::ModifyRenameOther,
    }
}

/// The leaf for a modification.
pub open spec fn modify_leaf(kind: RawModifyKind) -> NotifyEventKind {
    match kind {
        RawModifyKind::Any => NotifyEventKind::ModifyAny,
        RawModifyKind::Data(change) => data_leaf(change),
        RawModifyKind::Metadata(kind) => metadata_leaf(kind),
        RawModifyKind::Name(mode) => rename_leaf(mode),
        RawModifyKind::Other => NotifyEventKind::ModifyOther,
        RawModifyKind::Unrecognized => NotifyEventKind::ModifyOther,
    }
}

/// The leaf for a removal.
pub open spec fn remove_leaf(kind: RawRemoveKind) -> NotifyEventKind {
    match kind {
        RawRemoveKind::Any => NotifyEventKind::RemoveAny,
        RawRemoveKind::File => NotifyEventKind::RemoveFile,
        RawRemoveKind::Folder => NotifyEventKind::RemoveFolder,
        RawRemoveKind::Other => NotifyEventKind::RemoveOther,
        RawRemoveKind::Unrecognized => NotifyEventKind::RemoveOther,
    }
}

/// The one leaf of the taxonomy that a raw discriminant falls under. A
/// discriminant that is not recognized at some level falls to the `Other`
/// leaf nearest to that level; one not recognized at the top falls to
/// `Other`.
pub open spec fn leaf_of(kind: RawEventKind) -> NotifyEventKind {
    match kind {
        RawEventKind::Any => NotifyEventKind::Any,
        RawEventKind::Access(kind) => access_leaf(kind),
        RawEventKind::Create(kind) => create_leaf(kind),
        RawEventKind::Modify(kind) => modify_leaf(kind),
        RawEventKind::Remove(kind) => remove_leaf(kind),
        RawEventKind::Other => NotifyEventKind::Other,
        RawEventKind::Unrecognized => NotifyEventKind::Other,
    }
}

/// The group a raw discriminant belongs to.
pub open spec fn raw_group(kind: RawEventKind) -> EventGroup {
    match kind {
        RawEventKind::Any => EventGroup::Any,
        RawEventKind::Access(_) => EventGroup::Access,
        RawEventKind::Create(_) => EventGroup::Create,
        RawEventKind::Modify(_) => EventGroup::Modify,
        RawEventKind::Remove(_) => EventGroup::Remove,
        RawEventKind::Other => EventGroup::Other,
        RawEventKind::Unrecognized => EventGroup::Other,
    }
}

/// The canonical event for a raw one: the leaf of its discriminant, and its
/// paths as they are.
pub open spec fn normalize_spec<P>(raw: RawEventView<P>) -> NotifyEventView<P> {
    NotifyEventView { kind: leaf_of(raw.kind), paths: raw.paths }
}

fn normalize_access_mode(mode: RawAccessMode, closing: bool) -> (leaf: NotifyEventKind)
    ensures
        leaf == if closing { close_leaf(mode) } else { open_leaf(mode) },
{
    if closing {
        match mode {
            RawAccessMode::Any => NotifyEventKind::AccessCloseAny,
            RawAccessMode::Execute => NotifyEventKind::AccessCloseExecute,
            RawAccessMode::Read => NotifyEventKind::AccessCloseRead,
            RawAccessMode::Write => NotifyEventKind::AccessCloseWrite,
            RawAccessMode::Other | RawAccessMode::Unrecognized => NotifyEventKind::AccessCloseOther,
        }
    } else {
        match mode {
            RawAccessMode::Any => NotifyEventKind::AccessOpenAny,
            RawAccessMode::Execute => NotifyEventKind::AccessOpenExecute,
            RawAccessMode::Read => NotifyEventKind::AccessOpenRead,
            RawAccessMode::Write => NotifyEventKind::AccessOpenWrite,
            RawAccessMode::Other | RawAccessMode::Unrecognized => NotifyEventKind::AccessOpenOther,
        }
    }
}

fn normalize_access(kind: RawAccessKind) -> (leaf: NotifyEventKind)
    ensures
        leaf == access_leaf(kind),
{
    match kind {
        RawAccessKind::Any => NotifyEventKind::AccessAny,
        RawAccessKind::Read => NotifyEventKind::AccessRead,
        RawAccessKind::Open(mode) => normalize_access_mode(mode, false),
        RawAccessKind::Close(mode) => normalize_access_mode(mode, true),
        RawAccessKind::Other | RawAccessKind::Unrecognized => NotifyEventKind::AccessOther,
    }
}

fn normalize_create(kind: RawCreateKind) -> (leaf: NotifyEventKind)
    ensures
        leaf == create_leaf(kind),
{
    match kind {
        RawCreateKind::Any => NotifyEventKind::CreateAny,
        RawCreateKind::File => NotifyEventKind::CreateFile,
        RawCreateKind::Folder => NotifyEventKind::CreateFolder,
        RawCreateKind::Other | RawCreateKind::Unrecognized => NotifyEventKind::CreateOther,
    }
}

fn normalize_modify(kind: RawModifyKind) -> (leaf: NotifyEventKind)
    ensures
        leaf == modify_leaf(kind),
{
    match kind {
        RawModifyKind::Any => NotifyEventKind::ModifyAny,
        RawModifyKind::Data(change) => match change {
            RawDataChange::Any => NotifyEventKind::ModifyDataAny,
            RawDataChange::Size => NotifyEventKind::ModifyDataSize,
            RawDataChange::Content => NotifyEventKind::ModifyDataContent,
            RawDataChange::Other | RawDataChange::Unrecognized => NotifyEventKind::ModifyDataOther,
        },
        RawModifyKind::Metadata(kind) => match kind {
            RawMetadataKind::Any => NotifyEventKind::ModifyMetadataAny,
            RawMetadataKind::AccessTime => NotifyEventKind::ModifyMetadataAccessTime,
            RawMetadataKind::WriteTime => NotifyEventKind::ModifyMetadataWriteTime,
            RawMetadataKind::Permissions => NotifyEventKind::ModifyMetadataPermissions,
            RawMetadataKind::Ownership => NotifyEventKind::ModifyMetadataOwnership,
            RawMetadataKind::Extended => NotifyEventKind::ModifyMetadataExtended,
            RawMetadataKind::Other | RawMetadataKind::Unrecognized => {
                NotifyEventKind::ModifyMetadataOther
            },
        },
        RawModifyKind::Name(mode) => match mode {
            RawRenameMode::Any => NotifyEventKind::ModifyRenameAny,
            RawRenameMode::To => NotifyEventKind::ModifyRenameTo,
            RawRenameMode::From => NotifyEventKind::ModifyRenameFrom,
            RawRenameMode::Both => NotifyEventKind::ModifyRenameBoth,
            RawRenameMode::Other | RawRenameMode::Unrecognized => {
                NotifyEventKind::ModifyRenameOther
            },
        },
        RawModifyKind::Other | RawModifyKind::Unrecognized => NotifyEventKind::ModifyOther,
    }
}

fn normalize_remove(kind: RawRemoveKind) -> (leaf: NotifyEventKind)
    ensures
        leaf == remove_leaf(kind),
{
    match kind {
        RawRemoveKind::Any => NotifyEventKind::RemoveAny,
        RawRemoveKind::File => NotifyEventKind::RemoveFile,
        RawRemoveKind::Folder => NotifyEventKind::RemoveFolder,
        RawRemoveKind::Other | RawRemoveKind::Unrecognized => NotifyEventKind::RemoveOther,
    }
}

/// Maps a raw discriminant to its leaf. Defined on every discriminant: the
/// leaf lies in the discriminant's own group, and nothing is refused.
pub fn normalize_kind(kind: RawEventKind) -> (leaf: NotifyEventKind)
    ensures
        leaf == leaf_of(kind),
        leaf.group() == raw_group(kind),
{
    match kind {
        RawEventKind::Any => NotifyEventKind::Any,
        RawEventKind::Access(kind) => normalize_access(kind),
        RawEventKind::Create(kind) => normalize_create(kind),
        RawEventKind::Modify(kind) => normalize_modify(kind),
        RawEventKind::Remove(kind) => normalize_remove(kind),
        RawEventKind::Other | RawEventKind::Unrecognized => NotifyEventKind::Other,
    }
}

/// Normalizes a raw event. The raw event is used up: its paths move into
/// the canonical event in their order, none added, dropped or rewritten.
pub fn normalize<P>(raw: RawEvent<P>) -> (event: NotifyEvent<P>)
    ensures
        event@ == normalize_spec(raw@),
        event@.kind.group() == raw_group(raw@.kind),
        event@.paths == raw@.paths,
{
    let kind = normalize_kind(raw.kind);
    NotifyEvent::new(kind, raw.paths)
}

/// The recognized discriminant that a leaf stands for.
pub open spec fn raw_of(leaf: NotifyEventKind) -> RawEventKind {
    match leaf {
        NotifyEventKind::Any => RawEventKind::Any,
        NotifyEventKind::AccessAny => RawEventKind::Access(RawAccessKind::Any),
        NotifyEventKind::AccessRead => RawEventKind::Access(RawAccessKind::Read),
        NotifyEventKind::AccessOpenAny => {
            RawEventKind::Access(RawAccessKind::Open(RawAccessMode::Any))
        },
        NotifyEventKind::AccessOpenExecute => {
            RawEventKind::Access(RawAccessKind::Open(RawAccessMode::Execute))
        },
        NotifyEventKind::AccessOpenRead => {
            RawEventKind::Access(RawAccessKind::Open(RawAccessMode::Read))
        },
        NotifyEventKind::AccessOpenWrite => {
            RawEventKind::Access(RawAccessKind::Open(RawAccessMode::Write))
        },
        NotifyEventKind::AccessOpenOther => {
            RawEventKind::Access(RawAccessKind::Open(RawAccessMode::Other))
        },
        NotifyEventKind::AccessCloseAny => {
            RawEventKind::Access(RawAccessKind::Close(RawAccessMode::Any))
        },
        NotifyEventKind::AccessCloseExecute => {
            RawEventKind::Access(RawAccessKind::Close(RawAccessMode::Execute))
        },
        NotifyEventKind::AccessCloseRead => {
            RawEventKind::Access(RawAccessKind::Close(RawAccessMode::Read))
        },
        NotifyEventKind::AccessCloseWrite => {
            RawEventKind::Access(RawAccessKind::Close(RawAccessMode::Write))
        },
        NotifyEventKind::AccessCloseOther => {
            RawEventKind::Access(RawAccessKind::Close(RawAccessMode::Other))
        },
        NotifyEventKind::AccessOther => RawEventKind::Access(RawAccessKind::Other),
        NotifyEventKind::CreateAny => RawEventKind::Create(RawCreateKind::Any),
        NotifyEventKind::CreateFile => RawEventKind::Create(RawCreateKind::File),
        NotifyEventKind::CreateFolder => RawEventKind::Create(RawCreateKind::Folder),
        NotifyEventKind::CreateOther => RawEventKind::Create(RawCreateKind::Other),
        NotifyEventKind::ModifyAny => RawEventKind::Modify(RawModifyKind::Any),
        NotifyEventKind::ModifyDataAny => {
            RawEventKind::Modify(RawModifyKind::Data(RawDataChange::Any))
        },
        NotifyEventKind::ModifyDataSize => {
            RawEventKind::Modify(RawModifyKind::Data(RawDataChange::Size))
        },
        NotifyEventKind::ModifyDataContent => {
            RawEventKind::Modify(RawModifyKind::Data(RawDataChange::Content))
        },
        NotifyEventKind::ModifyDataOther => {
            RawEventKind::Modify(RawModifyKind::Data(RawDataChange::Other))
        },
        NotifyEventKind::ModifyMetadataAny => {
            RawEventKind::Modify(RawModifyKind::Metadata(RawMetadataKind::Any))
        },
        NotifyEventKind::ModifyMetadataAccessTime => {
            RawEventKind::Modify(RawModifyKind::Metadata(RawMetadataKind::AccessTime))
        },
        NotifyEventKind::ModifyMetadataWriteTime => {
            RawEventKind::Modify(RawModifyKind::Metadata(RawMetadataKind::WriteTime))
        },
        NotifyEventKind::ModifyMetadataPermissions => {
            RawEventKind::Modify(RawModifyKind::Metadata(RawMetadataKind::Permissions))
        },
        NotifyEventKind::ModifyMetadataOwnership => {
            RawEventKind::Modify(RawModifyKind::Metadata(RawMetadataKind::Ownership))
        },
        NotifyEventKind::ModifyMetadataExtended => {
            RawEventKind::Modify(RawModifyKind::Metadata(RawMetadataKind::Extended))
        },
        NotifyEventKind::ModifyMetadataOther => {
            RawEventKind::Modify(RawModifyKind::Metadata(RawMetadataKind::Other))
        },
        NotifyEventKind::ModifyRenameAny => {
            RawEventKind::Modify(RawModifyKind::Name(RawRenameMode::Any))
        },
        NotifyEventKind::ModifyRenameTo => {
            RawEventKind::Modify(RawModifyKind::Name(RawRenameMode::To))
        },
        NotifyEventKind::ModifyRenameFrom => {
            RawEventKind::Modify(RawModifyKind::Name(RawRenameMode::From))
        },
        NotifyEventKind::ModifyRenameBoth => {
            RawEventKind::Modify(RawModifyKind::Name(RawRenameMode::Both))
        },
        NotifyEventKind::ModifyRenameOther => {
            RawEventKind::Modify(RawModifyKind::Name(RawRenameMode::Other))
        },
        NotifyEventKind::ModifyOther => RawEventKind::Modify(RawModifyKind::Other),
        NotifyEventKind::RemoveAny => RawEventKind::Remove(RawRemoveKind::Any),
        NotifyEventKind::RemoveFile => RawEventKind::Remove(RawRemoveKind::File),
        NotifyEventKind::RemoveFolder => RawEventKind::Remove(RawRemoveKind::Folder),
        NotifyEventKind::RemoveOther => RawEventKind::Remove(RawRemoveKind::Other),
        NotifyEventKind::Other => RawEventKind::Other,
    }
}

/// Normalization is defined on every discriminant and stays in the
/// discriminant's group.
pub proof fn lemma_leaf_in_group(kind: RawEventKind)
    ensures
        leaf_of(kind).group() == raw_group(kind),
{
}

/// What is not recognized falls to the nearest `Other`: a discriminant has
/// the leaf of the discriminant that has `Other` where it has
/// `Unrecognized`, and that one is recognized.
pub proof fn lemma_unrecognized_falls_to_other(kind: RawEventKind)
    ensures
        kind.settled().recognized(),
        kind.recognized() ==> kind.settled() == kind,
        leaf_of(kind) == leaf_of(kind.settled()),
{
}

/// The taxonomy and the recognized discriminants match one to one: every
/// leaf stands for one recognized discriminant, and that discriminant's
/// leaf is the leaf again; every discriminant's leaf stands for the
/// discriminant as settled.
pub proof fn lemma_leaves_match_discriminants(kind: RawEventKind, leaf: NotifyEventKind)
    ensures
        raw_of(leaf).recognized(),
        leaf_of(raw_of(leaf)) == leaf,
        raw_of(leaf_of(kind)) == kind.settled(),
{
}

/// Two recognized discriminants with the same leaf are the same.
pub proof fn lemma_leaf_tells_discriminant(a: RawEventKind, b: RawEventKind)
    requires
        a.recognized(),
        b.recognized(),
        leaf_of(a) == leaf_of(b),
    ensures
        a == b,
{
    lemma_leaves_match_discriminants(a, leaf_of(a));
    lemma_leaves_match_discriminants(b, leaf_of(b));
}

/// A rename that carries both ends keeps them in order: the old path stays
/// first and the new path second. The same holds of any event: the paths
/// of the canonical event are the paths of the raw one.
pub proof fn lemma_paths_keep_order<P>(raw: RawEventView<P>)
    ensures
        normalize_spec(raw).paths == raw.paths,
        raw.kind == RawEventKind::Modify(RawModifyKind::Name(RawRenameMode::Both))
            ==> normalize_spec(raw).kind == NotifyEventKind::ModifyRenameBoth,
{
}

/// The tag of an access leaf is `access`, then the words of the kind.
proof fn lemma_access_tags(kind: RawAccessKind)
    ensures
        access_leaf(kind).tag_spec() == hyphenated("access"@, kind.words()),
{
    reveal_strlit("access");
    reveal_strlit("open");
    reveal_strlit("close");
    reveal_strlit("any");
    reveal_strlit("access-any");
    reveal_strlit("read");
    reveal_strlit("access-read");
    reveal_strlit("other");
    reveal_strlit("access-other");
    reveal_strlit("access-open-any");
    reveal_strlit("execute");
    reveal_strlit("access-open-execute");
    reveal_strlit("access-open-read");
    reveal_strlit("write");
    reveal_strlit("access-open-write");
    reveal_strlit("access-open-other");
    reveal_strlit("access-close-any");
    reveal_strlit("access-close-execute");
    reveal_strlit("access-close-read");
    reveal_strlit("access-close-write");
    reveal_strlit("access-close-other");
    match kind {
        RawAccessKind::Any => {
            assert(hyphenated("access"@, "any"@) =~= "access-any"@);
        },
        RawAccessKind::Read => {
            assert(hyphenated("access"@, "read"@) =~= "access-read"@);
        },
        RawAccessKind::Other => {
            assert(hyphenated("access"@, "other"@) =~= "access-other"@);
        },
        RawAccessKind::Unrecognized => {
            assert(hyphenated("access"@, "other"@) =~= "access-other"@);
        },
        RawAccessKind::Open(RawAccessMode::Any) => {
            assert(hyphenated("access"@, hyphenated("open"@, "any"@)) =~= "access-open-any"@);
        },
        RawAccessKind::Open(RawAccessMode::Execute) => {
            assert(hyphenated("access"@, hyphenated("open"@, "execute"@))
                =~= "access-open-execute"@);
        },
        RawAccessKind::Open(RawAccessMode::Read) => {
            assert(hyphenated("access"@, hyphenated("open"@, "read"@)) =~= "access-open-read"@);
        },
        RawAccessKind::Open(RawAccessMode::Write) => {
            assert(hyphenated("access"@, hyphenated("open"@, "write"@)) =~= "access-open-write"@);
        },
        RawAccessKind::Open(RawAccessMode::Other) => {
            assert(hyphenated("access"@, hyphenated("open"@, "other"@)) =~= "access-open-other"@);
        },
        RawAccessKind::Open(RawAccessMode::Unrecognized) => {
            assert(hyphenated("access"@, hyphenated("open"@, "other"@)) =~= "access-open-other"@);
        },
        RawAccessKind::Close(RawAccessMode::Any) => {
            assert(hyphenated("access"@, hyphenated("close"@, "any"@)) =~= "access-close-any"@);
        },
        RawAccessKind::Close(RawAccessMode::Execute) => {
            assert(hyphenated("access"@, hyphenated("close"@, "execute"@))
                =~= "access-close-execute"@);
        },
        RawAccessKind::Close(RawAccessMode::Read) => {
            assert(hyphenated("access"@, hyphenated("close"@, "read"@)) =~= "access-close-read"@);
        },
        RawAccessKind::Close(RawAccessMode::Write) => {
            assert(hyphenated("access"@, hyphenated("close"@, "write"@)) =~= "access-close-write"@);
        },
        RawAccessKind::Close(RawAccessMode::Other) => {
            assert(hyphenated("access"@, hyphenated("close"@, "other"@)) =~= "access-close-other"@);
        },
        RawAccessKind::Close(RawAccessMode::Unrecognized) => {
            assert(hyphenated("access"@, hyphenated("close"@, "other"@)) =~= "access-close-other"@);
        },
    }
}

/// The tag of a creation leaf is `create`, then the word of the kind.
proof fn lemma_create_tags(kind: RawCreateKind)
    ensures
        create_leaf(kind).tag_spec() == hyphenated("create"@, kind.words()),
{
    reveal_strlit("create");
    reveal_strlit("any");
    reveal_strlit("create-any");
    reveal_strlit("file");
    reveal_strlit("create-file");
    reveal_strlit("folder");
    reveal_strlit("create-folder");
    reveal_strlit("other");
    reveal_strlit("create-other");
    match kind {
        RawCreateKind::Any => {
            assert(hyphenated("create"@, "any"@) =~= "create-any"@);
        },
        RawCreateKind::File => {
            assert(hyphenated("create"@, "file"@) =~= "create-file"@);
        },
        RawCreateKind::Folder => {
            assert(hyphenated("create"@, "folder"@) =~= "create-folder"@);
        },
        RawCreateKind::Other => {
            assert(hyphenated("create"@, "other"@) =~= "create-other"@);
        },
        RawCreateKind::Unrecognized => {
            assert(hyphenated("create"@, "other"@) =~= "create-other"@);
        },
    }
}

/// The tag of a data leaf is `modify-data`, then the word of the change.
proof fn lemma_data_tags(change: RawDataChange)
    ensures
        data_leaf(change).tag_spec() == hyphenated(
            "modify"@,
            hyphenated("data"@, change.words()),
        ),
{
    reveal_strlit("modify");
    reveal_strlit("data");
    reveal_strlit("any");
    reveal_strlit("modify-data-any");
    reveal_strlit("size");
    reveal_strlit("modify-data-size");
    reveal_strlit("content");
    reveal_strlit("modify-data-content");
    reveal_strlit("other");
    reveal_strlit("modify-data-other");
    match change {
        RawDataChange::Any => {
            assert(hyphenated("modify"@, hyphenated("data"@, "any"@)) =~= "modify-data-any"@);
        },
        RawDataChange::Size => {
            assert(hyphenated("modify"@, hyphenated("data"@, "size"@)) =~= "modify-data-size"@);
        },
        RawDataChange::Content => {
            assert(hyphenated("modify"@, hyphenated("data"@, "content"@))
                =~= "modify-data-content"@);
        },
        RawDataChange::Other => {
            assert(hyphenated("modify"@, hyphenated("data"@, "other"@)) =~= "modify-data-other"@);
        },
        RawDataChange::Unrecognized => {
            assert(hyphenated("modify"@, hyphenated("data"@, "other"@)) =~= "modify-data-other"@);
        },
    }
}

/// The tag of a metadata leaf is `modify-metadata`, then the word of the
/// kind.
proof fn lemma_metadata_tags(kind: RawMetadataKind)
    ensures
        metadata_leaf(kind).tag_spec() == hyphenated(
            "modify"@,
            hyphenated("metadata"@, kind.words()),
        ),
{
    reveal_strlit("modify");
    reveal_strlit("metadata");
    reveal_strlit("any");
    reveal_strlit("modify-metadata-any");
    reveal_strlit("access-time");
    reveal_strlit("modify-metadata-access-time");
    reveal_strlit("write-time");
    reveal_strlit("modify-metadata-write-time");
    reveal_strlit("permissions");
    reveal_strlit("modify-metadata-permissions");
    reveal_strlit("ownership");
    reveal_strlit("modify-metadata-ownership");
    reveal_strlit("extended");
    reveal_strlit("modify-metadata-extended");
    reveal_strlit("other");
    reveal_strlit("modify-metadata-other");
    match kind {
        RawMetadataKind::Any => {
            assert(hyphenated("modify"@, hyphenated("metadata"@, "any"@))
                =~= "modify-metadata-any"@);
        },
        RawMetadataKind::AccessTime => {
            assert(hyphenated("modify"@, hyphenated("metadata"@, "access-time"@))
                =~= "modify-metadata-access-time"@);
        },
        RawMetadataKind::WriteTime => {
            assert(hyphenated("modify"@, hyphenated("metadata"@, "write-time"@))
                =~= "modify-metadata-write-time"@);
        },
        RawMetadataKind::Permissions => {
            assert(hyphenated("modify"@, hyphenated("metadata"@, "permissions"@))
                =~= "modify-metadata-permissions"@);
        },
        RawMetadataKind::Ownership => {
            assert(hyphenated("modify"@, hyphenated("metadata"@, "ownership"@))
                =~= "modify-metadata-ownership"@);
        },
        RawMetadataKind::Extended => {
            assert(hyphenated("modify"@, hyphenated("metadata"@, "extended"@))
                =~= "modify-metadata-extended"@);
        },
        RawMetadataKind::Other => {
            assert(hyphenated("modify"@, hyphenated("metadata"@, "other"@))
                =~= "modify-metadata-other"@);
        },
        RawMetadataKind::Unrecognized => {
            assert(hyphenated("modify"@, hyphenated("metadata"@, "other"@))
                =~= "modify-metadata-other"@);
        },
    }
}

/// The tag of a rename leaf is `modify-rename`, then the word of the mode.
proof fn lemma_rename_tags(mode: RawRenameMode)
    ensures
        rename_leaf(mode).tag_spec() == hyphenated(
            "modify"@,
            hyphenated("rename"@, mode.words()),
        ),
{
    reveal_strlit("modify");
    reveal_strlit("rename");
    reveal_strlit("any");
    reveal_strlit("modify-rename-any");
    reveal_strlit("to");
    reveal_strlit("modify-rename-to");
    reveal_strlit("from");
    reveal_strlit("modify-rename-from");
    reveal_strlit("both");
    reveal_strlit("modify-rename-both");
    reveal_strlit("other");
    reveal_strlit("modify-rename-other");
    match mode {
        RawRenameMode::Any => {
            assert(hyphenated("modify"@, hyphenated("rename"@, "any"@)) =~= "modify-rename-any"@);
        },
        RawRenameMode::To => {
            assert(hyphenated("modify"@, hyphenated("rename"@, "to"@)) =~= "modify-rename-to"@);
        },
        RawRenameMode::From => {
            assert(hyphenated("modify"@, hyphenated("rename"@, "from"@)) =~= "modify-rename-from"@);
        },
        RawRenameMode::Both => {
            assert(hyphenated("modify"@, hyphenated("rename"@, "both"@)) =~= "modify-rename-both"@);
        },
        RawRenameMode::Other => {
            assert(hyphenated("modify"@, hyphenated("rename"@, "other"@))
                =~= "modify-rename-other"@);
        },
        RawRenameMode::Unrecognized => {
            assert(hyphenated("modify"@, hyphenated("rename"@, "other"@))
                =~= "modify-rename-other"@);
        },
    }
}

/// The tag of a modification leaf is `modify`, then the words of the kind.
proof fn lemma_modify_tags(kind: RawModifyKind)
    ensures
        modify_leaf(kind).tag_spec() == hyphenated("modify"@, kind.words()),
{
    reveal_strlit("modify");
    reveal_strlit("any");
    reveal_strlit("modify-any");
    reveal_strlit("other");
    reveal_strlit("modify-other");
    match kind {
        RawModifyKind::Any => {
            assert(hyphenated("modify"@, "any"@) =~= "modify-any"@);
        },
        RawModifyKind::Other => {
            assert(hyphenated("modify"@, "other"@) =~= "modify-other"@);
        },
        RawModifyKind::Unrecognized => {
            assert(hyphenated("modify"@, "other"@) =~= "modify-other"@);
        },
        RawModifyKind::Data(change) => {
            lemma_data_tags(change);
        },
        RawModifyKind::Metadata(kind) => {
            lemma_metadata_tags(kind);
        },
        RawModifyKind::Name(mode) => {
            lemma_rename_tags(mode);
        },
    }
}

/// The tag of a removal leaf is `remove`, then the word of the kind.
proof fn lemma_remove_tags(kind: RawRemoveKind)
    ensures
        remove_leaf(kind).tag_spec() == hyphenated("remove"@, kind.words()),
{
    reveal_strlit("remove");
    reveal_strlit("any");
    reveal_strlit("remove-any");
    reveal_strlit("file");
    reveal_strlit("remove-file");
    reveal_strlit("folder");
    reveal_strlit("remove-folder");
    reveal_strlit("other");
    reveal_strlit("remove-other");
    match kind {
        RawRemoveKind::Any => {
            assert(hyphenated("remove"@, "any"@) =~= "remove-any"@);
        },
        RawRemoveKind::File => {
            assert(hyphenated("remove"@, "file"@) =~= "remove-file"@);
        },
        RawRemoveKind::Folder => {
            assert(hyphenated("remove"@, "folder"@) =~= "remove-folder"@);
        },
        RawRemoveKind::Other => {
            assert(hyphenated("remove"@, "other"@) =~= "remove-other"@);
        },
        RawRemoveKind::Unrecognized => {
            assert(hyphenated("remove"@, "other"@) =~= "remove-other"@);
        },
    }
}

/// Tags are hyphenated paths. The tag of a discriminant's leaf is made of
/// the words on the way down the discriminant, from its group to its last
/// level, joined by hyphens; a level that is not recognized reads as
/// `other`.
pub proof fn lemma_tag_is_hyphenated_path(kind: RawEventKind)
    ensures
        leaf_of(kind).tag_spec() == kind.words(),
{
    match kind {
        RawEventKind::Access(kind) => {
            lemma_access_tags(kind);
        },
        RawEventKind::Create(kind) => {
            lemma_create_tags(kind);
        },
        RawEventKind::Modify(kind) => {
            lemma_modify_tags(kind);
        },
        RawEventKind::Remove(kind) => {
            lemma_remove_tags(kind);
        },
        _ => {},
    }
}

} // verus!
