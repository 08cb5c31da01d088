use filedialog::datetime::LocalTime;
use filedialog::listing::{get_dirlistc, listing_dir, DirEntry, EntryKind};

fn entry(name: &str, kind: EntryKind) -> DirEntry {
    DirEntry { name: name.to_string(), kind }
}

fn text_of(y: i32, mo: u32, d: u32, h: u32, mi: u32, s: u32, ns: u32) -> Option<String> {
    LocalTime::new(y, mo, d, h, mi, s, ns).map(|t| t.text_str().to_string())
}

#[test]
fn local_time_text() {
    assert_eq!(text_of(2024, 3, 5, 7, 8, 9, 123).as_deref(), Some("2024-03-05 07:08:09"));
    assert_eq!(text_of(2024, 3, 5, 7, 8, 9, 0).map(|t| t.len()), Some(19));
}

#[test]
fn local_time_year_shapes() {
    assert_eq!(text_of(999, 1, 1, 0, 0, 0, 0).as_deref(), Some("0999-01-01 00:00:00"));
    assert_eq!(text_of(0, 1, 1, 0, 0, 0, 0).as_deref(), Some("0000-01-01 00:00:00"));
    assert_eq!(text_of(-1, 1, 1, 0, 0, 0, 0).as_deref(), Some("-0001-01-01 00:00:00"));
    assert_eq!(text_of(10000, 12, 31, 23, 59, 59, 0).as_deref(), Some("+10000-12-31 23:59:59"));
    assert_eq!(text_of(262142, 1, 1, 0, 0, 0, 0).as_deref(), Some("+262142-01-01 00:00:00"));
    assert!(text_of(262143, 1, 1, 0, 0, 0, 0).is_none());
    assert_eq!(text_of(-262143, 1, 1, 0, 0, 0, 0).as_deref(), Some("-262143-01-01 00:00:00"));
    assert!(text_of(-262144, 1, 1, 0, 0, 0, 0).is_none());
}

#[test]
fn leap_second_shows_as_sixty() {
    assert_eq!(text_of(2016, 12, 31, 23, 59, 59, 1_500_000_000).as_deref(), Some("2016-12-31 23:59:60"));
    assert!(text_of(2016, 12, 31, 23, 59, 58, 1_500_000_000).is_none());
    assert!(text_of(2016, 12, 31, 23, 59, 59, 2_000_000_000).is_none());
}

#[test]
fn invalid_local_time_is_refused() {
    assert!(LocalTime::new(2023, 2, 29, 0, 0, 0, 0).is_none());
    assert!(LocalTime::new(2100, 2, 29, 0, 0, 0, 0).is_none());
    assert!(LocalTime::new(2000, 2, 29, 0, 0, 0, 0).is_some());
    assert!(LocalTime::new(2024, 4, 31, 0, 0, 0, 0).is_none());
    assert!(LocalTime::new(2024, 13, 1, 0, 0, 0, 0).is_none());
    assert!(LocalTime::new(2024, 0, 1, 0, 0, 0, 0).is_none());
    assert!(LocalTime::new(2024, 1, 0, 0, 0, 0, 0).is_none());
    assert!(LocalTime::new(2024, 1, 1, 24, 0, 0, 0).is_none());
    assert!(LocalTime::new(2024, 1, 1, 0, 60, 0, 0).is_none());
    assert!(LocalTime::new(2024, 1, 1, 0, 0, 60, 0).is_none());
}

#[test]
fn listing_lines() {
    let modified = LocalTime::new(2021, 12, 31, 23, 59, 58, 0).unwrap();
    let entries = vec![
        entry("a.txt", EntryKind::File { modified, len: 1234 }),
        entry("sub", EntryKind::Dir { item_count: Some(17) }),
        entry("other", EntryKind::Dir { item_count: None }),
        entry("link", EntryKind::Other { file_type: "FileType(symlink)".to_string() }),
    ];
    let (code, msg, path, lines) = get_dirlistc("/home/u".to_string(), true, String::new(), entries);
    assert_eq!(code, 0);
    assert_eq!(msg, "4 items in directory ");
    assert_eq!(path, "/home/u");
    assert_eq!(
        lines,
        vec![
            "DIR | /home | ..parent".to_string(),
            "file | a.txt | 2021-12-31 23:59:58  1234".to_string(),
            "DIR | sub | 17 items".to_string(),
            "DIR | other | -- items".to_string(),
            "FileType(symlink) | link |  ".to_string(),
        ]
    );
}

#[test]
fn root_has_no_parent() {
    let (code, msg, path, lines) = get_dirlistc("/".to_string(), true, String::new(), Vec::new());
    assert_eq!(code, 1);
    assert_eq!(msg, "********* Directory 1: directory has no items **********");
    assert_eq!(path, "/");
    assert_eq!(lines, vec!["xxx | no parent | ..".to_string()]);
    let (_, _, path, lines) = get_dirlistc(String::new(), true, String::new(), Vec::new());
    assert_eq!(path, "");
    assert_eq!(lines, vec!["xxx | no parent | ..".to_string()]);
}

#[test]
fn missing_directory_falls_back_to_working_directory() {
    let (_, _, path, lines) =
        get_dirlistc("/no/such/dir".to_string(), false, "/work/here".to_string(), Vec::new());
    assert_eq!(path, "/work/here");
    assert_eq!(lines[0], "DIR | /work | ..parent");
    assert_eq!(listing_dir(&"/no/such".to_string(), false, &"/w".to_string()), "/w");
    assert_eq!(listing_dir(&"/a".to_string(), true, &"/w".to_string()), "/a");
}

#[test]
fn relative_path_parents() {
    let (_, _, _, lines) = get_dirlistc("foo/bar".to_string(), true, String::new(), Vec::new());
    assert_eq!(lines[0], "DIR | foo | ..parent");
    let (_, _, _, lines) = get_dirlistc("foo".to_string(), true, String::new(), Vec::new());
    assert_eq!(lines[0], "DIR |  | ..parent");
    let (_, _, _, lines) = get_dirlistc("/home".to_string(), true, String::new(), Vec::new());
    assert_eq!(lines[0], "DIR | / | ..parent");
}

#[test]
fn zero_sized_file_and_empty_subdirectory() {
    let modified = LocalTime::new(1999, 1, 2, 3, 4, 5, 0).unwrap();
    let entries = vec![
        entry("z", EntryKind::File { modified, len: 0 }),
        entry("e", EntryKind::Dir { item_count: Some(0) }),
    ];
    let (_, msg, _, lines) = get_dirlistc("/d".to_string(), true, String::new(), entries);
    assert_eq!(msg, "2 items in directory ");
    assert_eq!(lines[1], "file | z | 1999-01-02 03:04:05  0");
    assert_eq!(lines[2], "DIR | e | 0 items");
}
