use fs_notify::{
    normalize, normalize_kind, NotifyEventKind, RawAccessKind, RawAccessMode, RawCreateKind,
    RawDataChange, RawEvent, RawEventKind, RawMetadataKind, RawModifyKind, RawRemoveKind,
    RawRenameMode,
};
use std::path::PathBuf;

fn access_modes() -> Vec<RawAccessMode> {
    vec![
        RawAccessMode::Any,
        RawAccessMode::Execute,
        RawAccessMode::Read,
        RawAccessMode::Write,
        RawAccessMode::Other,
        RawAccessMode::Unrecognized,
    ]
}

fn every_raw_kind() -> Vec<RawEventKind> {
    let mut kinds = vec![RawEventKind::Any, RawEventKind::Other, RawEventKind::Unrecognized];
    for kind in [
        RawAccessKind::Any,
        RawAccessKind::Read,
        RawAccessKind::Other,
        RawAccessKind::Unrecognized,
    ] {
        kinds.push(RawEventKind::Access(kind));
    }
    for mode in access_modes() {
        kinds.push(RawEventKind::Access(RawAccessKind::Open(mode)));
        kinds.push(RawEventKind::Access(RawAccessKind::Close(mode)));
    }
    for kind in [
        RawCreateKind::Any,
        RawCreateKind::File,
        RawCreateKind::Folder,
        RawCreateKind::Other,
        RawCreateKind::Unrecognized,
    ] {
        kinds.push(RawEventKind::Create(kind));
    }
    for kind in [RawModifyKind::Any, RawModifyKind::Other, RawModifyKind::Unrecognized] {
        kinds.push(RawEventKind::Modify(kind));
    }
    for change in [
        RawDataChange::Any,
        RawDataChange::Size,
        RawDataChange::Content,
        RawDataChange::Other,
        RawDataChange::Unrecognized,
    ] {
        kinds.push(RawEventKind::Modify(RawModifyKind::Data(change)));
    }
    for kind in [
        RawMetadataKind::Any,
        RawMetadataKind::AccessTime,
        RawMetadataKind::WriteTime,
        RawMetadataKind::Permissions,
        RawMetadataKind::Ownership,
        RawMetadataKind::Extended,
        RawMetadataKind::Other,
        RawMetadataKind::Unrecognized,
    ] {
        kinds.push(RawEventKind::Modify(RawModifyKind::Metadata(kind)));
    }
    for mode in [
        RawRenameMode::Any,
        RawRenameMode::To,
        RawRenameMode::From,
        RawRenameMode::Both,
        RawRenameMode::Other,
        RawRenameMode::Unrecognized,
    ] {
        kinds.push(RawEventKind::Modify(RawModifyKind::Name(mode)));
    }
    for kind in [
        RawRemoveKind::Any,
        RawRemoveKind::File,
        RawRemoveKind::Folder,
        RawRemoveKind::Other,
        RawRemoveKind::Unrecognized,
    ] {
        kinds.push(RawEventKind::Remove(kind));
    }
    kinds
}

fn group_prefix(kind: RawEventKind) -> &'static str {
    match kind {
        RawEventKind::Any => "any",
        RawEventKind::Access(_) => "access-",
        RawEventKind::Create(_) => "create-",
        RawEventKind::Modify(_) => "modify-",
        RawEventKind::Remove(_) => "remove-",
        RawEventKind::Other | RawEventKind::Unrecognized => "other",
    }
}

#[test]
fn top_level_kinds_normalize() {
    assert_eq!(normalize_kind(RawEventKind::Any), NotifyEventKind::Any);
    assert_eq!(normalize_kind(RawEventKind::Other), NotifyEventKind::Other);
}

#[test]
fn access_kinds_normalize() {
    let access = |kind: RawAccessKind| normalize_kind(RawEventKind::Access(kind));
    assert_eq!(access(RawAccessKind::Any), NotifyEventKind::AccessAny);
    assert_eq!(access(RawAccessKind::Read), NotifyEventKind::AccessRead);
    assert_eq!(access(RawAccessKind::Open(RawAccessMode::Any)), NotifyEventKind::AccessOpenAny);
    assert_eq!(
        access(RawAccessKind::Open(RawAccessMode::Execute)),
        NotifyEventKind::AccessOpenExecute
    );
    assert_eq!(access(RawAccessKind::Open(RawAccessMode::Read)), NotifyEventKind::AccessOpenRead);
    assert_eq!(access(RawAccessKind::Open(RawAccessMode::Write)), NotifyEventKind::AccessOpenWrite);
    assert_eq!(access(RawAccessKind::Open(RawAccessMode::Other)), NotifyEventKind::AccessOpenOther);
    assert_eq!(access(RawAccessKind::Close(RawAccessMode::Any)), NotifyEventKind::AccessCloseAny);
    assert_eq!(
        access(RawAccessKind::Close(RawAccessMode::Execute)),
        NotifyEventKind::AccessCloseExecute
    );
    assert_eq!(access(RawAccessKind::Close(RawAccessMode::Read)), NotifyEventKind::AccessCloseRead);
    assert_eq!(
        access(RawAccessKind::Close(RawAccessMode::Write)),
        NotifyEventKind::AccessCloseWrite
    );
    assert_eq!(
        access(RawAccessKind::Close(RawAccessMode::Other)),
        NotifyEventKind::AccessCloseOther
    );
    assert_eq!(access(RawAccessKind::Other), NotifyEventKind::AccessOther);
}

#[test]
fn create_kinds_normalize() {
    let create = |kind: RawCreateKind| normalize_kind(RawEventKind::Create(kind));
    assert_eq!(create(RawCreateKind::Any), NotifyEventKind::CreateAny);
    assert_eq!(create(RawCreateKind::File), NotifyEventKind::CreateFile);
    assert_eq!(create(RawCreateKind::Folder), NotifyEventKind::CreateFolder);
    assert_eq!(create(RawCreateKind::Other), NotifyEventKind::CreateOther);
}

#[test]
fn modify_kinds_normalize() {
    let modify = |kind: RawModifyKind| normalize_kind(RawEventKind::Modify(kind));
    assert_eq!(modify(RawModifyKind::Any), NotifyEventKind::ModifyAny);
    assert_eq!(modify(RawModifyKind::Data(RawDataChange::Any)), NotifyEventKind::ModifyDataAny);
    assert_eq!(modify(RawModifyKind::Data(RawDataChange::Size)), NotifyEventKind::ModifyDataSize);
    assert_eq!(
        modify(RawModifyKind::Data(RawDataChange::Content)),
        NotifyEventKind::ModifyDataContent
    );
    assert_eq!(modify(RawModifyKind::Data(RawDataChange::Other)), NotifyEventKind::ModifyDataOther);
    assert_eq!(
        modify(RawModifyKind::Metadata(RawMetadataKind::Any)),
        NotifyEventKind::ModifyMetadataAny
    );
    assert_eq!(
        modify(RawModifyKind::Metadata(RawMetadataKind::AccessTime)),
        NotifyEventKind::ModifyMetadataAccessTime
    );
    assert_eq!(
        modify(RawModifyKind::Metadata(RawMetadataKind::WriteTime)),
        NotifyEventKind::ModifyMetadataWriteTime
    );
    assert_eq!(
        modify(RawModifyKind::Metadata(RawMetadataKind::Permissions)),
        NotifyEventKind::ModifyMetadataPermissions
    );
    assert_eq!(
        modify(RawModifyKind::Metadata(RawMetadataKind::Ownership)),
        NotifyEventKind::ModifyMetadataOwnership
    );
    assert_eq!(
        modify(RawModifyKind::Metadata(RawMetadataKind::Extended)),
        NotifyEventKind::ModifyMetadataExtended
    );
    assert_eq!(
        modify(RawModifyKind::Metadata(RawMetadataKind::Other)),
        NotifyEventKind::ModifyMetadataOther
    );
    assert_eq!(modify(RawModifyKind::Name(RawRenameMode::Any)), NotifyEventKind::ModifyRenameAny);
    assert_eq!(modify(RawModifyKind::Name(RawRenameMode::To)), NotifyEventKind::ModifyRenameTo);
    assert_eq!(modify(RawModifyKind::Name(RawRenameMode::From)), NotifyEventKind::ModifyRenameFrom);
    assert_eq!(modify(RawModifyKind::Name(RawRenameMode::Both)), NotifyEventKind::ModifyRenameBoth);
    assert_eq!(
        modify(RawModifyKind::Name(RawRenameMode::Other)),
        NotifyEventKind::ModifyRenameOther
    );
    assert_eq!(modify(RawModifyKind::Other), NotifyEventKind::ModifyOther);
}

#[test]
fn remove_kinds_normalize() {
    let remove = |kind: RawRemoveKind| normalize_kind(RawEventKind::Remove(kind));
    assert_eq!(remove(RawRemoveKind::Any), NotifyEventKind::RemoveAny);
    assert_eq!(remove(RawRemoveKind::File), NotifyEventKind::RemoveFile);
    assert_eq!(remove(RawRemoveKind::Folder), NotifyEventKind::RemoveFolder);
    assert_eq!(remove(RawRemoveKind::Other), NotifyEventKind::RemoveOther);
}

#[test]
fn what_is_not_recognized_falls_to_the_nearest_other() {
    assert_eq!(normalize_kind(RawEventKind::Unrecognized), NotifyEventKind::Other);
    assert_eq!(
        normalize_kind(RawEventKind::Access(RawAccessKind::Unrecognized)),
        NotifyEventKind::AccessOther
    );
    assert_eq!(
        normalize_kind(RawEventKind::Access(RawAccessKind::Open(RawAccessMode::Unrecognized))),
        NotifyEventKind::AccessOpenOther
    );
    assert_eq!(
        normalize_kind(RawEventKind::Access(RawAccessKind::Close(RawAccessMode::Unrecognized))),
        NotifyEventKind::AccessCloseOther
    );
    assert_eq!(
        normalize_kind(RawEventKind::Create(RawCreateKind::Unrecognized)),
        NotifyEventKind::CreateOther
    );
    assert_eq!(
        normalize_kind(RawEventKind::Modify(RawModifyKind::Unrecognized)),
        NotifyEventKind::ModifyOther
    );
    assert_eq!(
        normalize_kind(RawEventKind::Modify(RawModifyKind::Data(RawDataChange::Unrecognized))),
        NotifyEventKind::ModifyDataOther
    );
    assert_eq!(
        normalize_kind(RawEventKind::Modify(RawModifyKind::Metadata(
            RawMetadataKind::Unrecognized
        ))),
        NotifyEventKind::ModifyMetadataOther
    );
    assert_eq!(
        normalize_kind(RawEventKind::Modify(RawModifyKind::Name(RawRenameMode::Unrecognized))),
        NotifyEventKind::ModifyRenameOther
    );
    assert_eq!(
        normalize_kind(RawEventKind::Remove(RawRemoveKind::Unrecognized)),
        NotifyEventKind::RemoveOther
    );
}

#[test]
fn normalization_is_total_and_stays_in_the_group() {
    let kinds = every_raw_kind();
    assert_eq!(kinds.len(), 51);
    for kind in kinds {
        let leaf = normalize_kind(kind);
        assert!(leaf.tag().starts_with(group_prefix(kind)));
    }
}

#[test]
fn recognized_kinds_reach_every_leaf_once() {
    let mut tags: Vec<&'static str> = Vec::new();
    for kind in every_raw_kind() {
        let tag = normalize_kind(kind).tag();
        if !tags.contains(&tag) {
            tags.push(tag);
        }
    }
    assert_eq!(tags.len(), 41);
}

#[test]
fn normalize_keeps_the_paths_as_they_are() {
    let raw = RawEvent {
        kind: RawEventKind::Create(RawCreateKind::File),
        paths: vec!["/tmp/dir/f.txt".to_string()],
    };
    let event = normalize(raw);
    assert_eq!(event.kind(), NotifyEventKind::CreateFile);
    assert_eq!(event.paths(), &vec!["/tmp/dir/f.txt".to_string()]);
}

#[test]
fn a_rename_pair_keeps_old_then_new() {
    let raw = RawEvent {
        kind: RawEventKind::Modify(RawModifyKind::Name(RawRenameMode::Both)),
        paths: vec!["/tmp/old_name".to_string(), "/tmp/new_name".to_string()],
    };
    let event = normalize(raw);
    assert_eq!(event.kind(), NotifyEventKind::ModifyRenameBoth);
    assert_eq!(event.kind().tag(), "modify-rename-both");
    assert_eq!(event.paths(), &vec!["/tmp/old_name".to_string(), "/tmp/new_name".to_string()]);
}

#[test]
fn a_rename_pair_is_not_sorted() {
    let raw = RawEvent {
        kind: RawEventKind::Modify(RawModifyKind::Name(RawRenameMode::Both)),
        paths: vec!["/z/last".to_string(), "/a/first".to_string()],
    };
    assert_eq!(normalize(raw).into_paths(), vec!["/z/last".to_string(), "/a/first".to_string()]);
}

#[test]
fn paths_are_not_deduplicated_or_rewritten() {
    let paths = vec![
        "/tmp/a".to_string(),
        "/tmp/a".to_string(),
        "/tmp/../tmp/a".to_string(),
        "relative/./b".to_string(),
        String::new(),
    ];
    let raw = RawEvent { kind: RawEventKind::Any, paths: paths.clone() };
    assert_eq!(normalize(raw).into_paths(), paths);
}

#[test]
fn paths_of_the_platforms_own_type_pass_through() {
    let paths = vec![PathBuf::from("/tmp/old name"), PathBuf::from("/tmp/new name")];
    let raw = RawEvent {
        kind: RawEventKind::Modify(RawModifyKind::Name(RawRenameMode::Both)),
        paths: paths.clone(),
    };
    let event = normalize(raw);
    assert_eq!(event.kind(), NotifyEventKind::ModifyRenameBoth);
    assert_eq!(event.paths(), &paths);
}

#[test]
fn an_event_without_paths_normalizes() {
    let raw: RawEvent<String> = RawEvent { kind: RawEventKind::Other, paths: Vec::new() };
    let event = normalize(raw);
    assert_eq!(event.kind(), NotifyEventKind::Other);
    assert!(event.paths().is_empty());
}
