use std::path::{Component, Path};
use uplink::attachments::{
    attachment_entries, attachment_entry, attachment_entry_named, attachments_panel,
    find_stored_file, on_attachment_press, remove_attachment, same_location, AttachmentsPanel,
    Location, PathComponent, MAX_FILES_PER_MESSAGE,
};

fn cloud(p: &str) -> Location {
    Location::Constellation { path: p.to_string() }
}

fn disk(p: &str) -> Location {
    let components = Path::new(p)
        .components()
        .map(|c| match c {
            Component::Prefix(x) => PathComponent::Prefix(format!("{:?}", x.kind()).into_bytes()),
            Component::RootDir => PathComponent::RootDir,
            Component::CurDir => PathComponent::CurDir,
            Component::ParentDir => PathComponent::ParentDir,
            Component::Normal(n) => PathComponent::Normal {
                bytes: n.as_encoded_bytes().to_vec(),
                text: n.to_string_lossy().to_string(),
            },
        })
        .collect();
    Location::Disk { path: p.to_string(), components }
}

#[test]
fn removing_takes_out_every_equal_location() {
    let files = vec![cloud("/a.png"), disk("/a.png"), cloud("/b.png"), cloud("/a.png")];
    let left = remove_attachment(&files, &cloud("/a.png"));
    assert_eq!(left, vec![disk("/a.png"), cloud("/b.png")]);
}

#[test]
fn removing_twice_is_removing_once() {
    let files = vec![cloud("/a"), disk("/b"), cloud("/c")];
    let once = remove_attachment(&files, &disk("/b"));
    let twice = remove_attachment(&once, &disk("/b"));
    assert_eq!(once, twice);
    assert_eq!(once, vec![cloud("/a"), cloud("/c")]);
}

#[test]
fn removing_absent_location_keeps_all() {
    let files = vec![cloud("/a"), disk("/b")];
    assert_eq!(remove_attachment(&files, &disk("/a")), files);
}

#[test]
fn same_location_needs_kind_and_path() {
    assert!(same_location(&cloud("/x"), &cloud("/x")));
    assert!(!same_location(&cloud("/x"), &disk("/x")));
    assert!(!same_location(&disk("/x"), &disk("/y")));
}

#[test]
fn panel_hidden_when_nothing_attached() {
    assert_eq!(attachments_panel(&vec![]), AttachmentsPanel::Hidden);
}

#[test]
fn panel_warns_at_limit() {
    let below: Vec<Location> = (0..MAX_FILES_PER_MESSAGE - 1).map(|i| disk(&format!("/{i}"))).collect();
    let at: Vec<Location> = (0..MAX_FILES_PER_MESSAGE).map(|i| disk(&format!("/{i}"))).collect();
    assert_eq!(MAX_FILES_PER_MESSAGE, 8);
    assert_eq!(attachments_panel(&below), AttachmentsPanel::Shown { over_limit: false });
    assert_eq!(attachments_panel(&at), AttachmentsPanel::Shown { over_limit: true });
}

#[test]
fn stored_file_found_first() {
    let names = vec!["x.png".to_string(), "y.png".to_string(), "y.png".to_string()];
    assert_eq!(find_stored_file(&names, &"y.png".to_string()), Some(1));
    assert_eq!(find_stored_file(&names, &"z.png".to_string()), None);
}

#[test]
fn cloud_entry_takes_stored_thumbnail() {
    let names = vec!["other.png".to_string(), "photo.png".to_string()];
    let e = attachment_entry(&cloud("/pictures/photo.png"), &names);
    assert_eq!(e.filename, "photo.png");
    assert_eq!(e.filepath, "/pictures/photo.png");
    assert_eq!(e.stored_file, Some(1));
}

#[test]
fn disk_entry_has_no_stored_thumbnail() {
    let names = vec!["photo.png".to_string()];
    let e = attachment_entry(&disk("/home/u/photo.png"), &names);
    assert_eq!(e.filename, "photo.png");
    assert_eq!(e.filepath, "/home/u/photo.png");
    assert_eq!(e.stored_file, None);
}

#[test]
fn named_entry_uses_given_name() {
    let names = vec!["a".to_string()];
    let e = attachment_entry_named(&cloud("/dir/a"), "a".to_string(), &names);
    assert_eq!(e.stored_file, Some(0));
    let e = attachment_entry_named(&cloud("/dir/a"), "b".to_string(), &names);
    assert_eq!(e.stored_file, None);
}

#[test]
fn remove_button_removes_download_does_not() {
    let files = vec![cloud("/a"), disk("/b")];
    assert_eq!(on_attachment_press(&files, &disk("/b"), None), Some(vec![cloud("/a")]));
    assert_eq!(on_attachment_press(&files, &disk("/b"), Some("/tmp/b".to_string())), None);
}

#[test]
fn disk_paths_compare_by_components() {
    assert!(same_location(&disk("a/b"), &disk("a//b")));
    assert!(same_location(&disk("a/b"), &disk("a/./b")));
    assert!(same_location(&disk("a/b/"), &disk("a/b")));
    assert!(!same_location(&disk("/a/b"), &disk("a/b")));
    assert!(!same_location(&disk("a/../b"), &disk("b")));
    assert!(!same_location(&cloud("a//b"), &cloud("a/b")));
}

#[test]
fn removing_disk_path_removes_other_spellings() {
    let files = vec![disk("a//b"), cloud("a/b"), disk("a/c")];
    let left = remove_attachment(&files, &disk("a/b"));
    assert_eq!(left, vec![cloud("a/b"), disk("a/c")]);
}

#[test]
fn disk_file_name_is_last_normal_component() {
    let names: Vec<String> = vec![];
    assert_eq!(attachment_entry(&disk("/home/u/photo.png/"), &names).filename, "photo.png");
    assert_eq!(attachment_entry(&disk("/home/u/.."), &names).filename, "");
    assert_eq!(attachment_entry(&disk("/"), &names).filename, "");
}

#[test]
fn storage_file_name_is_last_part() {
    let names: Vec<String> = vec![];
    assert_eq!(attachment_entry(&cloud("photo.png"), &names).filename, "photo.png");
    assert_eq!(attachment_entry(&cloud("/a/b/c.txt"), &names).filename, "c.txt");
    assert_eq!(attachment_entry(&cloud("/a/.."), &names).filename, "");
    assert_eq!(attachment_entry(&cloud("a/b/"), &names).filename, "b");
    assert_eq!(attachment_entry(&cloud("foo.txt/."), &names).filename, "foo.txt");
    assert_eq!(attachment_entry(&cloud("/"), &names).filename, "");
    assert_eq!(attachment_entry(&cloud("."), &names).filename, "");
}

#[test]
fn bare_storage_name_finds_its_thumbnail() {
    let names = vec!["other.png".to_string(), "photo.png".to_string()];
    let e = attachment_entry(&cloud("photo.png"), &names);
    assert_eq!(e.filename, "photo.png");
    assert_eq!(e.stored_file, Some(1));
}

#[test]
fn disk_name_is_shown_text_of_last_component() {
    let loc = Location::Disk {
        path: "/x/\u{FFFD}".to_string(),
        components: vec![
            PathComponent::RootDir,
            PathComponent::Normal { bytes: b"x".to_vec(), text: "x".to_string() },
            PathComponent::Normal { bytes: vec![0xff], text: "\u{FFFD}".to_string() },
        ],
    };
    assert_eq!(attachment_entry(&loc, &vec![]).filename, "\u{FFFD}");
}

#[test]
fn disk_components_compare_by_bytes_not_text() {
    let a = Location::Disk {
        path: "a".to_string(),
        components: vec![PathComponent::Normal { bytes: vec![0xfe], text: "\u{FFFD}".to_string() }],
    };
    let b = Location::Disk {
        path: "a".to_string(),
        components: vec![PathComponent::Normal { bytes: vec![0xff], text: "\u{FFFD}".to_string() }],
    };
    assert!(!same_location(&a, &b));
    assert!(same_location(&a, &a.clone()));
}

#[test]
fn entries_follow_files_in_order() {
    let names = vec!["b.png".to_string()];
    let files = vec![cloud("/x/b.png"), disk("/y/b.png"), cloud("/x/b.png")];
    let entries = attachment_entries(&files, &names);
    assert_eq!(entries.len(), 3);
    assert_eq!(entries[0].stored_file, Some(0));
    assert_eq!(entries[1].stored_file, None);
    assert_eq!(entries[1].filepath, "/y/b.png");
    assert_eq!(entries[2], entries[0]);
}
