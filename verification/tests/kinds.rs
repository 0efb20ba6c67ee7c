use fs_notify::NotifyEventKind;

fn all_leaves() -> Vec<(NotifyEventKind, &'static str)> {
    vec![
        (NotifyEventKind::Any, "any"),
        (NotifyEventKind::AccessAny, "access-any"),
        (NotifyEventKind::AccessRead, "access-read"),
        (NotifyEventKind::AccessOpenAny, "access-open-any"),
        (NotifyEventKind::AccessOpenExecute, "access-open-execute"),
        (NotifyEventKind::AccessOpenRead, "access-open-read"),
        (NotifyEventKind::AccessOpenWrite, "access-open-write"),
        (NotifyEventKind::AccessOpenOther, "access-open-other"),
        (NotifyEventKind::AccessCloseAny, "access-close-any"),
        (NotifyEventKind::AccessCloseExecute, "access-close-execute"),
        (NotifyEventKind::AccessCloseRead, "access-close-read"),
        (NotifyEventKind::AccessCloseWrite, "access-close-write"),
        (NotifyEventKind::AccessCloseOther, "access-close-other"),
        (NotifyEventKind::AccessOther, "access-other"),
        (NotifyEventKind::CreateAny, "create-any"),
        (NotifyEventKind::CreateFile, "create-file"),
        (NotifyEventKind::CreateFolder, "create-folder"),
        (NotifyEventKind::CreateOther, "create-other"),
        (NotifyEventKind::ModifyAny, "modify-any"),
        (NotifyEventKind::ModifyDataAny, "modify-data-any"),
        (NotifyEventKind::ModifyDataSize, "modify-data-size"),
        (NotifyEventKind::ModifyDataContent, "modify-data-content"),
        (NotifyEventKind::ModifyDataOther, "modify-data-other"),
        (NotifyEventKind::ModifyMetadataAny, "modify-metadata-any"),
        (NotifyEventKind::ModifyMetadataAccessTime, "modify-metadata-access-time"),
        (NotifyEventKind::ModifyMetadataWriteTime, "modify-metadata-write-time"),
        (NotifyEventKind::ModifyMetadataPermissions, "modify-metadata-permissions"),
        (NotifyEventKind::ModifyMetadataOwnership, "modify-metadata-ownership"),
        (NotifyEventKind::ModifyMetadataExtended, "modify-metadata-extended"),
        (NotifyEventKind::ModifyMetadataOther, "modify-metadata-other"),
        (NotifyEventKind::ModifyRenameAny, "modify-rename-any"),
        (NotifyEventKind::ModifyRenameTo, "modify-rename-to"),
        (NotifyEventKind::ModifyRenameFrom, "modify-rename-from"),
        (NotifyEventKind::ModifyRenameBoth, "modify-rename-both"),
        (NotifyEventKind::ModifyRenameOther, "modify-rename-other"),
        (NotifyEventKind::ModifyOther, "modify-other"),
        (NotifyEventKind::RemoveAny, "remove-any"),
        (NotifyEventKind::RemoveFile, "remove-file"),
        (NotifyEventKind::RemoveFolder, "remove-folder"),
        (NotifyEventKind::RemoveOther, "remove-other"),
        (NotifyEventKind::Other, "other"),
    ]
}

#[test]
fn every_leaf_has_its_hyphenated_tag() {
    for (leaf, tag) in all_leaves() {
        assert_eq!(leaf.tag(), tag);
    }
}

#[test]
fn tags_named_by_the_interface() {
    assert_eq!(NotifyEventKind::ModifyDataContent.tag(), "modify-data-content");
    assert_eq!(NotifyEventKind::CreateFolder.tag(), "create-folder");
    assert_eq!(NotifyEventKind::AccessOpenRead.tag(), "access-open-read");
    assert_eq!(NotifyEventKind::Other.tag(), "other");
}

#[test]
fn no_two_leaves_share_a_tag() {
    let leaves = all_leaves();
    for (i, (a, _)) in leaves.iter().enumerate() {
        for (j, (b, _)) in leaves.iter().enumerate() {
            assert_eq!(a.tag() == b.tag(), i == j);
            assert_eq!(a == b, i == j);
        }
    }
}

#[test]
fn tags_are_lower_case_words_joined_by_hyphens() {
    for (leaf, _) in all_leaves() {
        let tag = leaf.tag();
        assert!(!tag.is_empty());
        assert!(!tag.starts_with('-') && !tag.ends_with('-') && !tag.contains("--"));
        assert!(tag.chars().all(|c| c == '-' || c.is_ascii_lowercase()));
    }
}
