use file_explorer::{
    list_files, ChildProbe, CommandError, DirProbe, EntryKind, ErrorKind, NodeProbe, Timestamp,
};

fn file(name: &str, dir: &str, size: u64, modified: Option<Timestamp>) -> ChildProbe {
    ChildProbe::Node(NodeProbe {
        name: name.to_string(),
        path: format!("{}/{}", dir, name),
        is_dir: false,
        size,
        modified,
        contents: None,
    })
}

fn folder(name: &str, dir: &str, contents: Option<DirProbe>) -> ChildProbe {
    ChildProbe::Node(NodeProbe {
        name: name.to_string(),
        path: format!("{}/{}", dir, name),
        is_dir: true,
        size: 4096,
        modified: None,
        contents,
    })
}

#[test]
fn flat_listing_of_a_file_and_a_folder() {
    let probe = DirProbe::Children(vec![file("a.txt", "/tmp/x", 10, None), folder("sub", "/tmp/x", None)]);
    let entries = list_files("/tmp/x".to_string(), false, &probe).unwrap();
    assert_eq!(entries.len(), 2);

    assert_eq!(entries[0].name, "a.txt");
    assert_eq!(entries[0].kind, EntryKind::File);
    assert_eq!(entries[0].kind.label(), "file");
    assert_eq!(entries[0].extension, "txt");
    assert_eq!(entries[0].size, 10);
    assert!(entries[0].children.is_none());

    assert_eq!(entries[1].name, "sub");
    assert_eq!(entries[1].kind, EntryKind::Folder);
    assert_eq!(entries[1].kind.label(), "folder");
    assert_eq!(entries[1].extension, "");
    assert_eq!(entries[1].size, 0);
    assert!(entries[1].children.is_none());
}

#[test]
fn entry_identifier_is_its_path() {
    let probe = DirProbe::Children(vec![file("a.txt", "/tmp/x", 10, None), folder("sub", "/tmp/x", None)]);
    let entries = list_files("/tmp/x".to_string(), false, &probe).unwrap();
    assert_eq!(entries[0].path, "/tmp/x/a.txt");
    assert_eq!(entries[0].id, "/tmp/x/a.txt");
    assert_eq!(entries[1].path, "/tmp/x/sub");
    assert_eq!(entries[1].id, "/tmp/x/sub");
    assert_ne!(entries[0].id, entries[1].id);
}

#[test]
fn entries_are_created_without_tags() {
    let probe = DirProbe::Children(vec![file("a.txt", "/d", 1, None), folder("sub", "/d", None)]);
    let entries = list_files("/d".to_string(), false, &probe).unwrap();
    assert!(entries.iter().all(|entry| entry.tags.is_empty()));
}

#[test]
fn one_entry_per_child_in_the_order_yielded() {
    let names = ["zeta", "alpha.rs", "Mid.TXT", "beta", "alpha.rs.bak"];
    let children = names.iter().map(|name| file(name, "/d", 1, None)).collect();
    let entries = list_files("/d".to_string(), false, &DirProbe::Children(children)).unwrap();
    let listed: Vec<&str> = entries.iter().map(|entry| entry.name.as_str()).collect();
    assert_eq!(listed, names);
    assert_eq!(entries[1].extension, "rs");
    assert_eq!(entries[2].extension, "TXT");
    assert_eq!(entries[4].extension, "bak");
}

#[test]
fn empty_directory_lists_nothing() {
    let entries = list_files("/empty".to_string(), false, &DirProbe::Children(vec![])).unwrap();
    assert!(entries.is_empty());
    let entries = list_files("/empty".to_string(), true, &DirProbe::Children(vec![])).unwrap();
    assert!(entries.is_empty());
}

#[test]
fn folder_has_no_extension_whatever_its_name() {
    let probe = DirProbe::Children(vec![folder("photos.2024", "/d", None)]);
    let entries = list_files("/d".to_string(), false, &probe).unwrap();
    assert_eq!(entries[0].kind, EntryKind::Folder);
    assert_eq!(entries[0].extension, "");
    assert_eq!(entries[0].size, 0);
}

#[test]
fn missing_path_is_not_found() {
    for recursive in [false, true] {
        let error = list_files("/nope".to_string(), recursive, &DirProbe::Missing).unwrap_err();
        assert!(matches!(&error, CommandError::PathNotFound(path) if path == "/nope"));
        assert_eq!(error.kind(), ErrorKind::NotFound);
        assert_eq!(error.message(), "Path does not exist: /nope");
    }
}

#[test]
fn unreadable_directory_is_a_read_error() {
    let probe = DirProbe::Unreadable("Permission denied (os error 13)".to_string());
    let error = list_files("/root".to_string(), false, &probe).unwrap_err();
    assert!(matches!(&error, CommandError::DirectoryRead(cause) if cause == "Permission denied (os error 13)"));
    assert_eq!(error.kind(), ErrorKind::PermissionOrIo);
    assert_eq!(error.message(), "Permission denied (os error 13)");
}

#[test]
fn failed_enumeration_step_fails_the_listing() {
    let probe = DirProbe::Children(vec![
        file("a.txt", "/d", 1, None),
        ChildProbe::EntryFailed("Input/output error".to_string()),
        file("b.txt", "/d", 1, None),
    ]);
    let error = list_files("/d".to_string(), false, &probe).unwrap_err();
    assert!(matches!(&error, CommandError::DirectoryRead(cause) if cause == "Input/output error"));
}

#[test]
fn failed_metadata_fails_the_listing() {
    let probe = DirProbe::Children(vec![
        file("a.txt", "/d", 1, None),
        ChildProbe::MetadataFailed("Stale file handle".to_string()),
    ]);
    let error = list_files("/d".to_string(), false, &probe).unwrap_err();
    assert!(matches!(&error, CommandError::EntryMetadata(cause) if cause == "Stale file handle"));
    assert_eq!(error.kind(), ErrorKind::PermissionOrIo);
    assert_eq!(error.message(), "Stale file handle");
}

#[test]
fn first_failure_in_order_wins() {
    let probe = DirProbe::Children(vec![
        ChildProbe::MetadataFailed("first".to_string()),
        ChildProbe::EntryFailed("second".to_string()),
    ]);
    let error = list_files("/d".to_string(), false, &probe).unwrap_err();
    assert!(matches!(&error, CommandError::EntryMetadata(cause) if cause == "first"));

    let probe = DirProbe::Children(vec![
        ChildProbe::EntryFailed("second".to_string()),
        ChildProbe::MetadataFailed("first".to_string()),
    ]);
    let error = list_files("/d".to_string(), false, &probe).unwrap_err();
    assert!(matches!(&error, CommandError::DirectoryRead(cause) if cause == "second"));
}

#[test]
fn missing_modification_time_falls_back_to_the_epoch() {
    let probe = DirProbe::Children(vec![file("a", "/d", 1, None), folder("b", "/d", None)]);
    let entries = list_files("/d".to_string(), false, &probe).unwrap();
    assert_eq!(entries[0].modified, "1970-01-01T00:00:00+00:00");
    assert_eq!(entries[1].modified, "1970-01-01T00:00:00+00:00");
}

#[test]
fn modification_time_is_rendered_in_utc() {
    let at = Timestamp::new(1_431_648_000, 250_000_000);
    let probe = DirProbe::Children(vec![file("a", "/d", 1, at)]);
    let entries = list_files("/d".to_string(), false, &probe).unwrap();
    assert_eq!(entries[0].modified, "2015-05-15T00:00:00.250+00:00");
}

#[test]
fn flat_listing_ignores_observed_contents() {
    let inner = DirProbe::Children(vec![file("deep.txt", "/d/sub", 3, None)]);
    let probe = DirProbe::Children(vec![folder("sub", "/d", Some(inner))]);
    let entries = list_files("/d".to_string(), false, &probe).unwrap();
    assert!(entries[0].children.is_none());
}

#[test]
fn flat_listing_ignores_unreadable_contents() {
    let probe = DirProbe::Children(vec![folder("sub", "/d", Some(DirProbe::Unreadable("denied".to_string())))]);
    let entries = list_files("/d".to_string(), false, &probe).unwrap();
    assert_eq!(entries.len(), 1);
}

#[test]
fn recursive_listing_nests_children() {
    let deepest = DirProbe::Children(vec![file("c.md", "/d/sub/inner", 7, None)]);
    let inner = DirProbe::Children(vec![
        file("b.txt", "/d/sub", 3, None),
        folder("inner", "/d/sub", Some(deepest)),
    ]);
    let probe = DirProbe::Children(vec![file("a.txt", "/d", 1, None), folder("sub", "/d", Some(inner))]);
    let entries = list_files("/d".to_string(), true, &probe).unwrap();
    assert_eq!(entries.len(), 2);
    assert!(entries[0].children.is_none());

    let sub = entries[1].children.as_ref().unwrap();
    assert_eq!(sub.len(), 2);
    assert_eq!(sub[0].name, "b.txt");
    assert_eq!(sub[0].path, "/d/sub/b.txt");
    assert!(sub[0].children.is_none());
    assert_eq!(sub[1].name, "inner");
    assert_eq!(sub[1].kind, EntryKind::Folder);

    let innermost = sub[1].children.as_ref().unwrap();
    assert_eq!(innermost.len(), 1);
    assert_eq!(innermost[0].name, "c.md");
    assert_eq!(innermost[0].extension, "md");
    assert_eq!(innermost[0].size, 7);
}

#[test]
fn recursive_listing_of_an_empty_folder_has_empty_children() {
    let probe = DirProbe::Children(vec![folder("sub", "/d", Some(DirProbe::Children(vec![])))]);
    let entries = list_files("/d".to_string(), true, &probe).unwrap();
    assert_eq!(entries[0].children.as_ref().unwrap().len(), 0);
}

#[test]
fn recursive_listing_leaves_unobserved_folders_without_children() {
    let probe = DirProbe::Children(vec![folder("sub", "/d", None)]);
    let entries = list_files("/d".to_string(), true, &probe).unwrap();
    assert!(entries[0].children.is_none());
}

#[test]
fn recursive_listing_fails_on_a_nested_failure() {
    let inner = DirProbe::Children(vec![ChildProbe::MetadataFailed("gone".to_string())]);
    let probe = DirProbe::Children(vec![
        file("a.txt", "/d", 1, None),
        folder("sub", "/d", Some(inner)),
        ChildProbe::EntryFailed("later".to_string()),
    ]);
    let error = list_files("/d".to_string(), true, &probe).unwrap_err();
    assert!(matches!(&error, CommandError::EntryMetadata(cause) if cause == "gone"));
}

#[test]
fn recursive_listing_reports_a_vanished_folder_by_its_own_path() {
    let probe = DirProbe::Children(vec![folder("sub", "/d", Some(DirProbe::Missing))]);
    let error = list_files("/d".to_string(), true, &probe).unwrap_err();
    assert!(matches!(&error, CommandError::PathNotFound(path) if path == "/d/sub"));
}

#[test]
fn file_never_gets_children() {
    let node = ChildProbe::Node(NodeProbe {
        name: "odd".to_string(),
        path: "/d/odd".to_string(),
        is_dir: false,
        size: 5,
        modified: None,
        contents: Some(DirProbe::Children(vec![])),
    });
    let entries = list_files("/d".to_string(), true, &DirProbe::Children(vec![node])).unwrap();
    assert_eq!(entries[0].kind, EntryKind::File);
    assert!(entries[0].children.is_none());
    assert_eq!(entries[0].size, 5);
}

#[test]
fn kind_words_lead_back_to_their_kinds() {
    for kind in [EntryKind::File, EntryKind::Folder, EntryKind::Disk] {
        assert_eq!(EntryKind::from_label(&kind.label()), Some(kind));
    }
    assert_eq!(EntryKind::from_label("file"), Some(EntryKind::File));
    assert_eq!(EntryKind::from_label("folder"), Some(EntryKind::Folder));
    assert_eq!(EntryKind::from_label("disk"), Some(EntryKind::Disk));
}

#[test]
fn other_words_name_no_kind() {
    for word in ["", "File", "directory", "files", "dis", "symlink"] {
        assert_eq!(EntryKind::from_label(word), None);
    }
}
