use snescli::entry::{EntryKind, RemoteEntry};
use snescli::text::{
    bytes_line, decimal_byte, entry_line, info_line, notice_line, progress_line, removal_line,
};

#[test]
fn notice_names_device() {
    assert_eq!(notice_line("SD2SNES COM3"), "Attaching to SD2SNES COM3.");
}

#[test]
fn info_line_bulleted() {
    assert_eq!(info_line("firmware v1.10.3"), " * firmware v1.10.3");
}

#[test]
fn directory_entry_gets_separator() {
    let e = RemoteEntry { name: "X".to_string(), kind: EntryKind::Directory };
    assert_eq!(entry_line(&e), "X/");
}

#[test]
fn file_entry_is_bare() {
    let e = RemoteEntry { name: "Y".to_string(), kind: EntryKind::File };
    assert_eq!(entry_line(&e), "Y");
}

#[test]
fn progress_line_shows_both_paths() {
    assert_eq!(progress_line("bar.bin", "foo/bar.bin"), "bar.bin -> foo/bar.bin");
}

#[test]
fn removal_line_names_path() {
    assert_eq!(removal_line("old.smc"), "removing old.smc");
}

#[test]
fn decimal_one_digit() {
    assert_eq!(decimal_byte(0), "0");
    assert_eq!(decimal_byte(9), "9");
}

#[test]
fn decimal_two_digits() {
    assert_eq!(decimal_byte(10), "10");
    assert_eq!(decimal_byte(99), "99");
}

#[test]
fn decimal_three_digits() {
    assert_eq!(decimal_byte(100), "100");
    assert_eq!(decimal_byte(255), "255");
}

#[test]
fn empty_buffer_prints_brackets() {
    assert_eq!(bytes_line(&vec![]), "[]");
}

#[test]
fn single_byte_buffer() {
    assert_eq!(bytes_line(&vec![7]), "[7]");
}

#[test]
fn buffer_is_comma_separated() {
    assert_eq!(bytes_line(&vec![0, 1, 255]), "[0, 1, 255]");
}
