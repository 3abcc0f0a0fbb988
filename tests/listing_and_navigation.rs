use file_browser::clock::Timestamp;
use file_browser::dir_path::DirPath;
use file_browser::entry::{order_entries, FileEntry};
use file_browser::manager::{Action, FileManager, UiEvent};

const NOW: Timestamp = Timestamp { secs: 1_700_000_000, nanos: 0 };

fn entry(name: &str, is_dir: bool, size: u64) -> FileEntry {
    FileEntry::from_listing(name.to_string(), is_dir, Some(size), None, NOW)
}

fn path(parts: &[&str]) -> DirPath {
    DirPath {
        anchor: vec!["/".to_string()],
        names: parts.iter().map(|p| p.to_string()).collect(),
    }
}

fn names(entries: &[FileEntry]) -> Vec<String> {
    entries.iter().map(|e| e.name.clone()).collect()
}

#[test]
fn listing_puts_directories_first_keeping_order() {
    let v = vec![
        entry("b.txt", false, 3),
        entry("src", true, 4),
        entry("a.txt", false, 1),
        entry("docs", true, 0),
        entry("c.txt", false, 2),
    ];
    let r = order_entries(v);
    assert_eq!(names(&r), vec!["src", "docs", "b.txt", "a.txt", "c.txt"]);
}

#[test]
fn listing_edge_cases() {
    assert!(order_entries(Vec::new()).is_empty());
    let only_files = order_entries(vec![entry("z", false, 0), entry("a", false, 0)]);
    assert_eq!(names(&only_files), vec!["z", "a"]);
    let only_dirs = order_entries(vec![entry("z", true, 0), entry("a", true, 0)]);
    assert_eq!(names(&only_dirs), vec!["z", "a"]);
}

#[test]
fn entry_from_listing_defaults() {
    let e = FileEntry::from_listing("x".to_string(), true, None, None, NOW);
    assert_eq!(e.size, 0);
    assert!(e.is_dir);
    assert_eq!(e.modified, "Unknown");
    let f = FileEntry::from_listing("y".to_string(), false, Some(42), Some(Timestamp { secs: 0, nanos: 0 }), NOW);
    assert_eq!(f.size, 42);
    assert_ne!(f.modified, "Unknown");
}

#[test]
fn size_and_name_labels() {
    assert_eq!(entry("docs", true, 12).size_label(), "12 items");
    assert_eq!(entry("a.bin", false, 2048).size_label(), "2.00 KiB");
    assert_eq!(entry("docs", true, 12).name_label(), "\u{1F4C1} docs");
    assert_eq!(entry("a.bin", false, 2048).name_label(), "\u{1F4C4} a.bin");
}

#[test]
fn up_is_disabled_at_the_root() {
    let root = FileManager::new(path(&[]));
    assert!(!root.can_navigate_up());
    let home = FileManager::new(path(&["home"]));
    assert!(home.can_navigate_up());
    let relative_empty = FileManager::new(DirPath { anchor: Vec::new(), names: Vec::new() });
    assert!(!relative_empty.can_navigate_up());
}

#[test]
fn up_moves_to_the_parent() {
    let mut m = FileManager::new(path(&["home", "user"]));
    assert!(matches!(m.handle(UiEvent::Up), Action::Reload));
    assert_eq!(m.current_dir.names, vec!["home"]);
    assert!(matches!(m.handle(UiEvent::Up), Action::Reload));
    assert!(m.current_dir.names.is_empty());
    assert!(matches!(m.handle(UiEvent::Up), Action::Stay));
    assert_eq!(m.current_dir.anchor, vec!["/"]);
}

#[test]
fn breadcrumbs_and_their_clicks() {
    let mut m = FileManager::new(path(&["home", "user", "docs"]));
    let crumbs = m.breadcrumbs();
    let labels: Vec<String> = crumbs.iter().map(|c| c.label.clone()).collect();
    assert_eq!(labels, vec!["/", "home", "user", "docs"]);
    let seps: Vec<bool> = crumbs.iter().map(|c| c.separator_before).collect();
    assert_eq!(seps, vec![false, false, true, true]);
    assert!(matches!(m.handle(UiEvent::Breadcrumb(9)), Action::Stay));
    assert_eq!(m.current_dir.names, vec!["home", "user", "docs"]);
    assert!(matches!(m.handle(UiEvent::Breadcrumb(1)), Action::Reload));
    assert_eq!(m.current_dir.names, vec!["home"]);
    assert!(matches!(m.handle(UiEvent::Breadcrumb(0)), Action::Reload));
    assert!(m.current_dir.names.is_empty());
    assert_eq!(m.current_dir.anchor, vec!["/"]);
}

#[test]
fn clicks_on_entries() {
    let mut m = FileManager::new(path(&["home"]));
    assert!(m.needs_listing());
    m.load(Some(vec![entry("notes.txt", false, 5), entry("user", true, 2)]));
    assert!(!m.needs_listing());
    assert_eq!(names(&m.entries), vec!["user", "notes.txt"]);
    assert!(matches!(m.handle(UiEvent::EntryClicked(1)), Action::Stay));
    assert!(matches!(m.handle(UiEvent::EntryDoubleClicked(0)), Action::Stay));
    assert!(matches!(m.handle(UiEvent::EntryClicked(7)), Action::Stay));
    match m.handle(UiEvent::EntryDoubleClicked(1)) {
        Action::OpenFile(name) => assert_eq!(name, "notes.txt"),
        other => panic!("{:?}", other),
    }
    assert_eq!(m.current_dir.names, vec!["home"]);
    assert!(matches!(m.handle(UiEvent::EntryClicked(0)), Action::Reload));
    assert_eq!(m.current_dir.names, vec!["home", "user"]);
}

#[test]
fn unreadable_directory_lists_nothing() {
    let mut m = FileManager::new(path(&["home"]));
    m.load(Some(vec![entry("a", false, 1)]));
    m.load(None);
    assert!(m.entries.is_empty());
    assert!(m.needs_listing());
}
