//! The canonical event taxonomy: a closed, flat list of leaves under five
//! groups, the same on every platform.

use vstd::prelude::*;

verus! {

/// The top-level group a canonical leaf belongs to.
#[derive(Clone, Copy, Debug, PartialEq, Eq, Structural)]
pub enum EventGroup {
    Any,
    Access,
    Create,
    Modify,
    Remove,
    Other,
}

/// A leaf of the canonical taxonomy.
#[derive(Clone, Copy, Debug, PartialEq, Eq, Hash, Structural)]
pub enum NotifyEventKind {
    Any,
    AccessAny,
    AccessRead,
    AccessOpenAny,
    AccessOpenExecute,
    AccessOpenRead,
    AccessOpenWrite,
    AccessOpenOther,
    AccessCloseAny,
    AccessCloseExecute,
    AccessCloseRead,
    AccessCloseWrite,
    AccessCloseOther,
    AccessOther,
    CreateAny,
    CreateFile,
    CreateFolder,
    CreateOther,
    ModifyAny,
    ModifyDataAny,
    ModifyDataSize,
    ModifyDataContent,
    ModifyDataOther,
    ModifyMetadataAny,
    ModifyMetadataAccessTime,
    ModifyMetadataWriteTime,
    ModifyMetadataPermissions,
    ModifyMetadataOwnership,
    ModifyMetadataExtended,
    ModifyMetadataOther,
    ModifyRenameAny,
    ModifyRenameTo,
    ModifyRenameFrom,
    ModifyRenameBoth,
    ModifyRenameOther,
    ModifyOther,
    RemoveAny,
    RemoveFile,
    RemoveFolder,
    RemoveOther,
    Other,
}

impl NotifyEventKind {
    /// The group of a leaf.
    pub open spec fn group(self) -> EventGroup {
        match self {
            NotifyEventKind::Any => EventGroup::Any,
            NotifyEventKind::AccessAny
            | NotifyEventKind::AccessRead
            | NotifyEventKind::AccessOpenAny
            | NotifyEventKind::AccessOpenExecute
            | NotifyEventKind::AccessOpenRead
            | NotifyEventKind::AccessOpenWrite
            | NotifyEventKind::AccessOpenOther
            | NotifyEventKind::AccessCloseAny
            | NotifyEventKind::AccessCloseExecute
            | NotifyEventKind::AccessCloseRead
            | NotifyEventKind::AccessCloseWrite
            | NotifyEventKind::AccessCloseOther
            | NotifyEventKind::AccessOther => EventGroup::Access,
            NotifyEventKind::CreateAny
            | NotifyEventKind::CreateFile
            | NotifyEventKind::CreateFolder
            | NotifyEventKind::CreateOther => EventGroup::Create,
            NotifyEventKind::ModifyAny
            | NotifyEventKind::ModifyDataAny
            | NotifyEventKind::ModifyDataSize
            | NotifyEventKind::ModifyDataContent
            | NotifyEventKind::ModifyDataOther
            | NotifyEventKind::ModifyMetadataAny
            | NotifyEventKind::ModifyMetadataAccessTime
            | NotifyEventKind::ModifyMetadataWriteTime
            | NotifyEventKind::ModifyMetadataPermissions
            | NotifyEventKind::ModifyMetadataOwnership
            | NotifyEventKind::ModifyMetadataExtended
            | NotifyEventKind::ModifyMetadataOther
            | NotifyEventKind::ModifyRenameAny
            | NotifyEventKind::ModifyRenameTo
            | NotifyEventKind::ModifyRenameFrom
            | NotifyEventKind::ModifyRenameBoth
            | NotifyEventKind::ModifyRenameOther
            | NotifyEventKind::ModifyOther => EventGroup::Modify,
            NotifyEventKind::RemoveAny
            | NotifyEventKind::RemoveFile
            | NotifyEventKind::RemoveFolder
            | NotifyEventKind::RemoveOther => EventGroup::Remove,
            NotifyEventKind::Other => EventGroup::Other,
        }
    }

    /// The canonical tag of a leaf, as the consumer sees it.
    pub open spec fn tag_spec(self) -> Seq<char> {
        match self {
            NotifyEventKind::Any => "any"@,
            NotifyEventKind::AccessAny => "access-any"@,
            NotifyEventKind::AccessRead => "access-read"@,
            NotifyEventKind::AccessOpenAny => "access-open-any"@,
            NotifyEventKind::AccessOpenExecute => "access-open-execute"@,
            NotifyEventKind::AccessOpenRead => "access-open-read"@,
            NotifyEventKind::AccessOpenWrite => "access-open-write"@,
            NotifyEventKind::AccessOpenOther => "access-open-other"@,
            NotifyEventKind::AccessCloseAny => "access-close-any"@,
            NotifyEventKind::AccessCloseExecute => "access-close-execute"@,
            NotifyEventKind::AccessCloseRead => "access-close-read"@,
            NotifyEventKind::AccessCloseWrite => "access-close-write"@,
            NotifyEventKind::AccessCloseOther => "access-close-other"@,
            NotifyEventKind::AccessOther => "access-other"@,
            NotifyEventKind::CreateAny => "create-any"@,
            NotifyEventKind::CreateFile => "create-file"@,
            NotifyEventKind::CreateFolder => "create-folder"@,
            NotifyEventKind::CreateOther => "create-other"@,
            NotifyEventKind::ModifyAny => "modify-any"@,
            NotifyEventKind::ModifyDataAny => "modify-data-any"@,
            NotifyEventKind::ModifyDataSize => "modify-data-size"@,
            NotifyEventKind::ModifyDataContent => "modify-data-content"@,
            NotifyEventKind::ModifyDataOther => "modify-data-other"@,
            NotifyEventKind::ModifyMetadataAny => "modify-metadata-any"@,
            NotifyEventKind::ModifyMetadataAccessTime => "modify-metadata-access-time"@,
            NotifyEventKind::ModifyMetadataWriteTime => "modify-metadata-write-time"@,
            NotifyEventKind::ModifyMetadataPermissions => "modify-metadata-permissions"@,
            NotifyEventKind::ModifyMetadataOwnership => "modify-metadata-ownership"@,
            NotifyEventKind::ModifyMetadataExtended => "modify-metadata-extended"@,
            NotifyEventKind::ModifyMetadataOther => "modify-metadata-other"@,
            NotifyEventKind::ModifyRenameAny => "modify-rename-any"@,
            NotifyEventKind::ModifyRenameTo => "modify-rename-to"@,
            NotifyEventKind::ModifyRenameFrom => "modify-rename-from"@,
            NotifyEventKind::ModifyRenameBoth => "modify-rename-both"@,
            NotifyEventKind::ModifyRenameOther => "modify-rename-other"@,
            NotifyEventKind::ModifyOther => "modify-other"@,
            NotifyEventKind::RemoveAny => "remove-any"@,
            NotifyEventKind::RemoveFile => "remove-file"@,
            NotifyEventKind::RemoveFolder => "remove-folder"@,
            NotifyEventKind::RemoveOther => "remove-other"@,
            NotifyEventKind::Other => "other"@,
        }
    }

    /// The canonical tag of this leaf.
    pub fn tag(&self) -> (t: &'static str)
        ensures
            t@ == self.tag_spec(),
    {
        match self {
            NotifyEventKind::Any => "any",
            NotifyEventKind::AccessAny => "access-any",
            NotifyEventKind::AccessRead => "access-read",
            NotifyEventKind::AccessOpenAny => "access-open-any",
            NotifyEventKind::AccessOpenExecute => "access-open-execute",
            NotifyEventKind::AccessOpenRead => "access-open-read",
            NotifyEventKind::AccessOpenWrite => "access-open-write",
            NotifyEventKind::AccessOpenOther => "access-open-other",
            NotifyEventKind::AccessCloseAny => "access-close-any",
            NotifyEventKind::AccessCloseExecute => "access-close-execute",
            NotifyEventKind::AccessCloseRead => "access-close-read",
            NotifyEventKind::AccessCloseWrite => "access-close-write",
            NotifyEventKind::AccessCloseOther => "access-close-other",
            NotifyEventKind::AccessOther => "access-other",
            NotifyEventKind::CreateAny => "create-any",
            NotifyEventKind::CreateFile => "create-file",
            NotifyEventKind::CreateFolder => "create-folder",
            NotifyEventKind::CreateOther => "create-other",
            NotifyEventKind::ModifyAny => "modify-any",
            NotifyEventKind::ModifyDataAny => "modify-data-any",
            NotifyEventKind::ModifyDataSize => "modify-data-size",
            NotifyEventKind::ModifyDataContent => "modify-data-content",
            NotifyEventKind::ModifyDataOther => "modify-data-other",
            NotifyEventKind::ModifyMetadataAny => "modify-metadata-any",
            NotifyEventKind::ModifyMetadataAccessTime => "modify-metadata-access-time",
            NotifyEventKind::ModifyMetadataWriteTime => "modify-metadata-write-time",
            NotifyEventKind::ModifyMetadataPermissions => "modify-metadata-permissions",
            NotifyEventKind::ModifyMetadataOwnership => "modify-metadata-ownership",
            NotifyEventKind::ModifyMetadataExtended => "modify-metadata-extended",
            NotifyEventKind::ModifyMetadataOther => "modify-metadata-other",
            NotifyEventKind::ModifyRenameAny => "modify-rename-any",
            NotifyEventKind::ModifyRenameTo => "modify-rename-to",
            NotifyEventKind::ModifyRenameFrom => "modify-rename-from",
            NotifyEventKind::ModifyRenameBoth => "modify-rename-both",
            NotifyEventKind::ModifyRenameOther => "modify-rename-other",
            NotifyEventKind::ModifyOther => "modify-other",
            NotifyEventKind::RemoveAny => "remove-any",
            NotifyEventKind::RemoveFile => "remove-file",
            NotifyEventKind::RemoveFolder => "remove-folder",
            NotifyEventKind::RemoveOther => "remove-other",
            NotifyEventKind::Other => "other",
        }
    }
}

/// No two leaves share a tag: the tag alone tells a consumer the leaf.
pub proof fn lemma_tags_distinct(a: NotifyEventKind, b: NotifyEventKind)
    requires
        a.tag_spec() == b.tag_spec(),
    ensures
        a == b,
{
    reveal_strlit("any");
    reveal_strlit("access-any");
    reveal_strlit("access-read");
    reveal_strlit("access-open-any");
    reveal_strlit("access-open-execute");
    reveal_strlit("access-open-read");
    reveal_strlit("access-open-write");
    reveal_strlit("access-open-other");
    reveal_strlit("access-close-any");
    reveal_strlit("access-close-execute");
    reveal_strlit("access-close-read");
    reveal_strlit("access-close-write");
    reveal_strlit("access-close-other");
    reveal_strlit("access-other");
    reveal_strlit("create-any");
    reveal_strlit("create-file");
    reveal_strlit("create-folder");
    reveal_strlit("create-other");
    reveal_strlit("modify-any");
    reveal_strlit("modify-data-any");
    reveal_strlit("modify-data-size");
    reveal_strlit("modify-data-content");
    reveal_strlit("modify-data-other");
    reveal_strlit("modify-metadata-any");
    reveal_strlit("modify-metadata-access-time");
    reveal_strlit("modify-metadata-write-time");
    reveal_strlit("modify-metadata-permissions");
    reveal_strlit("modify-metadata-ownership");
    reveal_strlit("modify-metadata-extended");
    reveal_strlit("modify-metadata-other");
    reveal_strlit("modify-rename-any");
    reveal_strlit("modify-rename-to");
    reveal_strlit("modify-rename-from");
    reveal_strlit("modify-rename-both");
    reveal_strlit("modify-rename-other");
    reveal_strlit("modify-other");
    reveal_strlit("remove-any");
    reveal_strlit("remove-file");
    reveal_strlit("remove-folder");
    reveal_strlit("remove-other");
    reveal_strlit("other");
    // Of each tag, its length and as many characters as tell it from the
    // other tags of that length.
    assert("any"@.len() == 3);
    assert("access-any"@.len() == 10 && "access-any"@[0] == 'a');
    assert("access-read"@.len() == 11 && "access-read"@[0] == 'a');
    assert("access-open-any"@.len() == 15 && "access-open-any"@[0] == 'a');
    assert("access-open-execute"@.len() == 19 && "access-open-execute"@[7] == 'o');
    assert("access-open-read"@.len() == 16 && "access-open-read"@[7] == 'o');
    assert("access-open-write"@.len() == 17
        && "access-open-write"@[0] == 'a'
        && "access-open-write"@[12] == 'w');
    assert("access-open-other"@.len() == 17
        && "access-open-other"@[0] == 'a'
        && "access-open-other"@[12] == 'o');
    assert("access-close-any"@.len() == 16 && "access-close-any"@[7] == 'c');
    assert("access-close-execute"@.len() == 20);
    assert("access-close-read"@.len() == 17
        && "access-close-read"@[0] == 'a'
        && "access-close-read"@[12] == '-');
    assert("access-close-write"@.len() == 18 && "access-close-write"@[14] == 'r');
    assert("access-close-other"@.len() == 18 && "access-close-other"@[14] == 't');
    assert("access-other"@.len() == 12 && "access-other"@[0] == 'a');
    assert("create-any"@.len() == 10 && "create-any"@[0] == 'c');
    assert("create-file"@.len() == 11 && "create-file"@[0] == 'c');
    assert("create-folder"@.len() == 13 && "create-folder"@[0] == 'c');
    assert("create-other"@.len() == 12 && "create-other"@[0] == 'c');
    assert("modify-any"@.len() == 10 && "modify-any"@[0] == 'm');
    assert("modify-data-any"@.len() == 15 && "modify-data-any"@[0] == 'm');
    assert("modify-data-size"@.len() == 16 && "modify-data-size"@[7] == 'd');
    assert("modify-data-content"@.len() == 19 && "modify-data-content"@[7] == 'd');
    assert("modify-data-other"@.len() == 17
        && "modify-data-other"@[0] == 'm'
        && "modify-data-other"@[12] == 'o');
    assert("modify-metadata-any"@.len() == 19 && "modify-metadata-any"@[7] == 'm');
    assert("modify-metadata-access-time"@.len() == 27 && "modify-metadata-access-time"@[16] == 'a');
    assert("modify-metadata-write-time"@.len() == 26);
    assert("modify-metadata-permissions"@.len() == 27 && "modify-metadata-permissions"@[16] == 'p');
    assert("modify-metadata-ownership"@.len() == 25);
    assert("modify-metadata-extended"@.len() == 24);
    assert("modify-metadata-other"@.len() == 21);
    assert("modify-rename-any"@.len() == 17
        && "modify-rename-any"@[0] == 'm'
        && "modify-rename-any"@[12] == 'e');
    assert("modify-rename-to"@.len() == 16 && "modify-rename-to"@[7] == 'r');
    assert("modify-rename-from"@.len() == 18 && "modify-rename-from"@[14] == 'f');
    assert("modify-rename-both"@.len() == 18 && "modify-rename-both"@[14] == 'b');
    assert("modify-rename-other"@.len() == 19 && "modify-rename-other"@[7] == 'r');
    assert("modify-other"@.len() == 12 && "modify-other"@[0] == 'm');
    assert("remove-any"@.len() == 10 && "remove-any"@[0] == 'r');
    assert("remove-file"@.len() == 11 && "remove-file"@[0] == 'r');
    assert("remove-folder"@.len() == 13 && "remove-folder"@[0] == 'r');
    assert("remove-other"@.len() == 12 && "remove-other"@[0] == 'r');
    assert("other"@.len() == 5);
}

} // verus!
