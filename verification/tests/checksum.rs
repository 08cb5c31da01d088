use filedialog::checksum::{findmd5sum, FileRead};

#[test]
fn checksum_of_abc() {
    let r = findmd5sum("/x/abc.txt".to_string(), FileRead::Contents(b"abc".to_vec()));
    assert_eq!(
        r,
        (0, "all good".to_string(), "900150983cd24fb0d6963f7d28e17f72".to_string())
    );
}

#[test]
fn checksum_of_empty_file() {
    let r = findmd5sum("/x/empty".to_string(), FileRead::Contents(Vec::new()));
    assert_eq!(r.2, "d41d8cd98f00b204e9800998ecf8427e");
    assert_eq!(r.2.len(), 32);
}

#[test]
fn open_failure_is_reported() {
    let r = findmd5sum("/no/such".to_string(), FileRead::OpenFailed("not found".to_string()));
    assert_eq!(
        r,
        (1, "unable to open file /no/such error: not found".to_string(), "-".to_string())
    );
}

#[test]
fn read_failure_is_reported() {
    let r = findmd5sum("/dev/x".to_string(), FileRead::ReadFailed("I/O error".to_string()));
    assert_eq!(
        r,
        (2, "unable to get buffer file /dev/x error: I/O error".to_string(), "-".to_string())
    );
}
