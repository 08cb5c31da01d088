use filedialog::execpress::execpress;
use filedialog::text::join_path;

fn run(tde: bool, hde: bool, refname: &str, targetname: &str, tfe: bool) -> (u32, String) {
    execpress(tde, hde, refname.to_string(), targetname.to_string(), tfe)
}

#[test]
fn valid_request_is_accepted() {
    assert_eq!(
        run(true, true, "ref1", "abc.pdf", false),
        (0, "all good and now process execution".to_string())
    );
}

#[test]
fn missing_target_directory_comes_first() {
    assert_eq!(
        run(false, false, "r", "x", true),
        (7, "the target directory does not exist".to_string())
    );
}

#[test]
fn missing_harddrive_directory() {
    assert_eq!(
        run(true, false, "r", "x", true),
        (6, "the harddrive directory does not exist".to_string())
    );
}

#[test]
fn short_reference_name() {
    assert_eq!(
        run(true, true, "abc", "abc.pdf", false),
        (1, "the reference name is less than 4 characters".to_string())
    );
}

#[test]
fn reference_length_counts_bytes() {
    // two characters, four bytes
    assert_eq!(run(true, true, "éé", "abc.pdf", false).0, 0);
    assert_eq!(run(true, true, "é", "abc.pdf", false).0, 1);
}

#[test]
fn target_without_dot() {
    assert_eq!(
        run(true, true, "refx", "abcpdf", false),
        (2, "target name does not have a file type (ie xx.xxx)".to_string())
    );
}

#[test]
fn short_file_type() {
    assert_eq!(
        run(true, true, "refx", "abc.pd", false),
        (3, "target name does not have a valid type (must be at least 3 characters".to_string())
    );
    // the last dot decides the type
    assert_eq!(run(true, true, "refx", "abc.pdf.x", false).0, 3);
}

#[test]
fn short_name_before_first_dot() {
    assert_eq!(
        run(true, true, "refx", "ab.pdf", false),
        (4, "target name is least than 3 characters".to_string())
    );
    // the first dot decides the name
    assert_eq!(run(true, true, "refx", "ab.cde.pdf", false).0, 4);
    assert_eq!(run(true, true, "refx", "abc.de.pdf", false).0, 0);
}

#[test]
fn existing_target_file() {
    assert_eq!(
        run(true, true, "refx", "abc.pdf", true),
        (5, "the target output file already exists".to_string())
    );
}

#[test]
fn target_path_is_directory_slash_name() {
    assert_eq!(join_path("/tmp/out", "abc.pdf"), "/tmp/out/abc.pdf");
}
