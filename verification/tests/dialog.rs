use filedialog::dialog::{
    empty_listing_text, selection_summary, visible_files, Action, File, FileDialogX, FileMessage,
    Filterf, MessColor, Message, PageChoice,
};
use filedialog::listing::{get_dirlistc, DirEntry, EntryKind};

fn listed(dir: &str, lines: &[&str]) -> FileDialogX {
    let mut d = FileDialogX::new();
    d.listing_done((
        0,
        "ok".to_string(),
        dir.to_string(),
        lines.iter().map(|l| l.to_string()).collect(),
    ));
    d
}

fn list_target(a: Action) -> Option<(String, bool)> {
    match a {
        Action::ListDir(p, b) => Some((p, b)),
        _ => None,
    }
}

#[test]
fn initial_state() {
    let d = FileDialogX::new();
    assert_eq!(d.dir_value, "no directory");
    assert_eq!(d.msg_value, "no message");
    assert_eq!(d.mess_color, MessColor::Info);
    assert_eq!(d.pagechoice_value, PageChoice::ROT);
    assert_eq!(d.outdir_value, "");
    assert_eq!(d.filterf, Filterf::All);
    assert!(d.files.is_empty());
    assert!(!d.getdiritems);
    assert_eq!(d.title(), "File dialog test");
    assert_eq!(PageChoice::default(), PageChoice::ROT);
    assert_eq!(Filterf::default(), Filterf::All);
}

#[test]
fn choosing_a_page() {
    let mut d = FileDialogX::new();
    assert!(matches!(d.update(Message::PageRadioSelected(PageChoice::CON)), Action::Done));
    assert_eq!(d.pagechoice_value, PageChoice::CON);
    assert_eq!(d.msg_value, "page choice file dialog selected");
    assert_eq!(d.mess_color, MessColor::Success);
    d.update(Message::PageRadioSelected(PageChoice::ROT));
    assert_eq!(d.msg_value, "page choice rotate correction selected");
}

#[test]
fn filter_and_flag_messages() {
    let mut d = FileDialogX::new();
    d.update(Message::FilterChangedf(Filterf::Completed));
    assert_eq!(d.filterf, Filterf::Completed);
    d.update(Message::GetDirItemsChk(true));
    assert!(d.getdiritems);
    assert_eq!(d.msg_value, "no message");
}

#[test]
fn ticking_lines() {
    let mut d = listed("/a", &["DIR | / | ..parent", "file | x | t  1"]);
    d.update(Message::FileMessage(1, FileMessage::Completed(true)));
    assert!(d.files[1].completed);
    assert!(!d.files[0].completed);
    // out of range: nothing happens
    d.update(Message::FileMessage(5, FileMessage::Completed(true)));
    assert_eq!(d.files.len(), 2);
    d.update(Message::FileMessage(1, FileMessage::Completed(false)));
    assert!(!d.files[1].completed);
}

#[test]
fn outside_work_requests() {
    let mut d = FileDialogX::new();
    d.outdir_value = "/out".to_string();
    d.getdiritems = true;
    assert!(matches!(d.update(Message::RCListPressed), Action::CheckDir(p) if p == "no directory"));
    assert!(matches!(d.update(Message::C8SetDirPressed), Action::CheckOutDir(p) if p == "/out"));
    assert_eq!(list_target(d.update(Message::C8ListPressed)), Some(("no directory".to_string(), true)));
}

#[test]
fn directory_check_reports() {
    let mut d = FileDialogX::new();
    d.dir_checked(false);
    assert_eq!(d.msg_value, "directory does not exist: no directory");
    assert_eq!(d.mess_color, MessColor::Failure);
    d.dir_checked(true);
    assert_eq!(d.msg_value, "directory exist: no directory");
    assert_eq!(d.mess_color, MessColor::Success);
}

#[test]
fn setting_the_directory() {
    let mut d = FileDialogX::new();
    d.outdir_value = "/data".to_string();
    d.outdir_checked(false);
    assert_eq!(d.msg_value, "directory /data does not exist");
    assert_eq!(d.dir_value, "no directory");
    assert_eq!(d.mess_color, MessColor::Failure);
    d.outdir_checked(true);
    assert_eq!(d.dir_value, "/data");
    assert_eq!(d.msg_value, "directory has been set with /data");
    assert_eq!(d.mess_color, MessColor::Success);
}

#[test]
fn listing_applied_and_failed_listing_kept() {
    let mut d = listed("/a", &["DIR | / | ..parent", "DIR | b | -- items"]);
    assert_eq!(d.outdir_value, "/a");
    assert_eq!(d.msg_value, "ok");
    assert_eq!(d.mess_color, MessColor::Success);
    assert_eq!(d.files.len(), 2);
    d.listing_done((1, "empty".to_string(), "/z".to_string(), vec!["xxx | no parent | ..".to_string()]));
    assert_eq!(d.msg_value, "empty");
    assert_eq!(d.mess_color, MessColor::Failure);
    assert_eq!(d.outdir_value, "/a");
    assert_eq!(d.files.len(), 2);
}

#[test]
fn change_directory_needs_exactly_one_selection() {
    let mut d = listed("/a", &["DIR | / | ..parent", "DIR | b | -- items"]);
    assert!(matches!(d.update(Message::C8ChgDirPressed), Action::Done));
    assert_eq!(d.msg_value, "no item selected");
    assert_eq!(d.mess_color, MessColor::Failure);
    d.update(Message::FileMessage(0, FileMessage::Completed(true)));
    d.update(Message::FileMessage(1, FileMessage::Completed(true)));
    assert!(matches!(d.update(Message::C8ChgDirPressed), Action::Done));
    assert_eq!(d.msg_value, "more than 1 item selected");
}

#[test]
fn change_directory_targets() {
    let mut d = listed("/a", &["DIR | / | ..parent", "DIR | b | -- items", "file | c | t  3"]);
    d.update(Message::FileMessage(0, FileMessage::Completed(true)));
    assert_eq!(list_target(d.update(Message::C8ChgDirPressed)), Some(("/".to_string(), false)));
    d.update(Message::FileMessage(0, FileMessage::Completed(false)));
    d.update(Message::FileMessage(1, FileMessage::Completed(true)));
    d.update(Message::GetDirItemsChk(true));
    assert_eq!(list_target(d.update(Message::C8ChgDirPressed)), Some(("/a/b".to_string(), true)));
    d.update(Message::FileMessage(1, FileMessage::Completed(false)));
    d.update(Message::FileMessage(2, FileMessage::Completed(true)));
    assert!(matches!(d.update(Message::C8ChgDirPressed), Action::Done));
    assert_eq!(d.msg_value, "file | c | t  3 is not a directory");
    assert_eq!(d.mess_color, MessColor::Failure);
}

#[test]
fn navigating_a_real_listing() {
    let entries = vec![DirEntry { name: "docs".to_string(), kind: EntryKind::Dir { item_count: None } }];
    let mut d = FileDialogX::new();
    d.listing_done(get_dirlistc("/home/u".to_string(), true, String::new(), entries));
    d.update(Message::FileMessage(1, FileMessage::Completed(true)));
    assert_eq!(list_target(d.update(Message::C8ChgDirPressed)), Some(("/home/u/docs".to_string(), false)));
}

#[test]
fn filters_and_summary() {
    let mut d = listed("/a", &["DIR | / | ..parent", "DIR | b | -- items", "file | c | t  3"]);
    assert_eq!(visible_files(&d.files, Filterf::All), vec![0, 1, 2]);
    assert_eq!(visible_files(&d.files, Filterf::Completed), Vec::<usize>::new());
    assert_eq!(selection_summary(&d.files), "0 files selected");
    d.update(Message::FileMessage(2, FileMessage::Completed(true)));
    assert_eq!(visible_files(&d.files, Filterf::Active), vec![0, 1]);
    assert_eq!(visible_files(&d.files, Filterf::Completed), vec![2]);
    assert_eq!(selection_summary(&d.files), "1 file selected");
    d.update(Message::FileMessage(0, FileMessage::Completed(true)));
    assert_eq!(selection_summary(&d.files), "2 files selected");
    let f = File::new("x".to_string());
    assert!(Filterf::All.matches(&f));
    assert!(Filterf::Active.matches(&f));
    assert!(!Filterf::Completed.matches(&f));
}

#[test]
fn empty_listing_texts() {
    assert_eq!(empty_listing_text(Filterf::All), "No directory selected or no files in directory");
    assert_eq!(empty_listing_text(Filterf::Active), "All files have been selected");
    assert_eq!(empty_listing_text(Filterf::Completed), "No files have been selected");
}

#[test]
fn file_line_checkbox() {
    let mut f = File::new("DIR | b | 2 items".to_string());
    assert!(!f.completed);
    f.update(FileMessage::Completed(true));
    assert!(f.completed);
    assert_eq!(f.description, "DIR | b | 2 items");
}

#[test]
fn separator_inside_a_name_splits_it() {
    // a directory named "a | b" gives the line "DIR | a | b | -- items",
    // whose second field is "a"
    let mut d = listed("/r", &["DIR | a | b | -- items"]);
    d.update(Message::FileMessage(0, FileMessage::Completed(true)));
    assert_eq!(list_target(d.update(Message::C8ChgDirPressed)), Some(("/r/a".to_string(), false)));
}

#[test]
fn no_parent_line_is_not_a_directory() {
    let mut d = listed("/", &["xxx | no parent | .."]);
    d.update(Message::FileMessage(0, FileMessage::Completed(true)));
    assert!(matches!(d.update(Message::C8ChgDirPressed), Action::Done));
    assert_eq!(d.msg_value, "xxx | no parent | .. is not a directory");
}

#[test]
fn change_directory_readiness() {
    let mut d = listed("/a", &["DIR | x", "file | y"]);
    assert!(d.can_change_dir());
    d.update(Message::FileMessage(1, FileMessage::Completed(true)));
    assert!(d.can_change_dir());
    d.update(Message::FileMessage(1, FileMessage::Completed(false)));
    d.update(Message::FileMessage(0, FileMessage::Completed(true)));
    assert!(!d.can_change_dir());
    d.update(Message::FileMessage(1, FileMessage::Completed(true)));
    assert!(d.can_change_dir());
}
