use fee::item::{Item, ItemType};
use fee::listing::{get_cwd_contents, ListError, RawEntry, RawKind};

fn entry(name: &str, kind: RawKind) -> RawEntry {
    RawEntry { name: Some(name.to_string()), kind }
}

fn names(items: &[Item]) -> Vec<String> {
    items.iter().map(|i| i.name.clone()).collect()
}

#[test]
fn directories_come_first_in_raw_order() {
    let raw = vec![
        entry("b", RawKind::Directory),
        entry("a", RawKind::Directory),
        entry("z.txt", RawKind::File),
        entry("m.bin", RawKind::File),
    ];
    let items = get_cwd_contents(&raw).unwrap();
    assert_eq!(names(&items), vec!["b", "a", "z.txt", "m.bin"]);
}

#[test]
fn interleaved_entries_are_partitioned_stably() {
    let raw = vec![
        entry("z.txt", RawKind::File),
        entry("b", RawKind::Directory),
        entry("m.bin", RawKind::File),
        entry("a", RawKind::Directory),
    ];
    let items = get_cwd_contents(&raw).unwrap();
    assert_eq!(names(&items), vec!["b", "a", "z.txt", "m.bin"]);
    assert!(items[0]._is_dir() && items[1]._is_dir());
    assert!(items[2].is_file() && items[3].is_file());
    assert_eq!(items[0].item_type, ItemType::Directory);
    assert_eq!(items[3].item_type, ItemType::File);
}

#[test]
fn no_file_stands_before_a_directory() {
    let kinds = [RawKind::File, RawKind::Directory, RawKind::Other, RawKind::File, RawKind::Directory];
    let raw: Vec<RawEntry> =
        kinds.iter().enumerate().map(|(i, k)| entry(&format!("e{}", i), *k)).collect();
    let items = get_cwd_contents(&raw).unwrap();
    let dirs = items.iter().filter(|i| i._is_dir()).count();
    let files = items.iter().filter(|i| i.is_file()).count();
    assert_eq!(dirs, 2);
    assert_eq!(files, 2);
    assert_eq!(dirs + files, items.len());
    for (i, item) in items.iter().enumerate() {
        assert_eq!(item._is_dir(), i < dirs);
    }
}

#[test]
fn entries_of_another_kind_are_skipped() {
    let raw = vec![
        entry("link", RawKind::Other),
        entry("f", RawKind::File),
        entry("sock", RawKind::Other),
    ];
    let items = get_cwd_contents(&raw).unwrap();
    assert_eq!(names(&items), vec!["f"]);
}

#[test]
fn empty_directory_gives_empty_listing() {
    let items = get_cwd_contents(&Vec::new()).unwrap();
    assert!(items.is_empty());
}

#[test]
fn a_name_that_is_no_text_fails_the_listing() {
    let raw = vec![
        entry("ok", RawKind::File),
        RawEntry { name: None, kind: RawKind::File },
        entry("later", RawKind::Directory),
    ];
    assert_eq!(get_cwd_contents(&raw).unwrap_err(), ListError::FileName { index: 1 });
}

#[test]
fn a_bad_name_fails_even_on_a_skipped_kind() {
    let raw = vec![RawEntry { name: None, kind: RawKind::Other }];
    assert_eq!(get_cwd_contents(&raw).unwrap_err(), ListError::FileName { index: 0 });
}

#[test]
fn an_unknown_kind_fails_the_listing() {
    let raw = vec![entry("a", RawKind::Directory), entry("b", RawKind::Unknown)];
    assert_eq!(get_cwd_contents(&raw).unwrap_err(), ListError::FileType { index: 1 });
}

#[test]
fn the_kind_is_looked_at_before_the_name() {
    let raw = vec![RawEntry { name: None, kind: RawKind::Unknown }];
    assert_eq!(get_cwd_contents(&raw).unwrap_err(), ListError::FileType { index: 0 });
}

#[test]
fn the_first_bad_entry_decides_the_error() {
    let raw = vec![
        entry("fine", RawKind::File),
        RawEntry { name: None, kind: RawKind::Directory },
        entry("x", RawKind::Unknown),
    ];
    assert_eq!(get_cwd_contents(&raw).unwrap_err(), ListError::FileName { index: 1 });
    let raw = vec![
        entry("x", RawKind::Unknown),
        RawEntry { name: None, kind: RawKind::Directory },
    ];
    assert_eq!(get_cwd_contents(&raw).unwrap_err(), ListError::FileType { index: 0 });
}

#[test]
fn item_kind_predicates() {
    let d = Item { name: "d".to_string(), item_type: ItemType::Directory };
    let f = Item { name: "f".to_string(), item_type: ItemType::File };
    assert!(d._is_dir());
    assert!(!d.is_file());
    assert!(f.is_file());
    assert!(!f._is_dir());
}
