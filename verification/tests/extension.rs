use dirbackup::extension::{file_extension, is_archive_name};
use std::path::Path;

#[test]
fn file_extension_follows_last_dot() {
    assert_eq!(file_extension("backup-1.tar.gz"), Some("gz"));
    assert_eq!(file_extension("notes.txt"), Some("txt"));
    assert_eq!(file_extension("a.b.c"), Some("c"));
    assert_eq!(file_extension("archive.GZ"), Some("GZ"));
}

#[test]
fn file_extension_of_name_without_dot_is_none() {
    assert_eq!(file_extension("gz"), None);
    assert_eq!(file_extension("README"), None);
    assert_eq!(file_extension(""), None);
}

#[test]
fn file_extension_of_hidden_file_is_none() {
    assert_eq!(file_extension(".gz"), None);
    assert_eq!(file_extension(".bashrc"), None);
    assert_eq!(file_extension("."), None);
}

#[test]
fn file_extension_of_hidden_file_with_second_dot() {
    assert_eq!(file_extension(".hidden.gz"), Some("gz"));
    assert_eq!(file_extension("..gz"), Some("gz"));
    assert_eq!(file_extension("..."), Some(""));
}

#[test]
fn file_extension_may_be_empty() {
    assert_eq!(file_extension("name."), Some(""));
    assert_eq!(file_extension("a.gz."), Some(""));
}

#[test]
fn file_extension_of_parent_name_is_none() {
    assert_eq!(file_extension(".."), None);
}

#[test]
fn file_extension_counts_characters_not_bytes() {
    assert_eq!(file_extension("r\u{00e9}sum\u{00e9}.gz"), Some("gz"));
    assert_eq!(file_extension("\u{65e5}\u{672c}.\u{8a9e}"), Some("\u{8a9e}"));
    assert_eq!(file_extension("\u{00e9}"), None);
}

#[test]
fn file_extension_agrees_with_std_path() {
    let samples = [
        "", ".", "..", "...", "a", ".a", "a.", "a.b", ".a.b", "a..b", "..a", "a.gz", ".gz",
        "gz", "x.tar.gz", "x.gz.tar", "x.GZ", "x.gz ", " .gz", "\u{00e9}.gz", "a.\u{00e9}",
    ];
    for name in samples {
        let expected = Path::new(name).extension().and_then(|e| e.to_str());
        assert_eq!(file_extension(name), expected, "on {:?}", name);
    }
}

#[test]
fn is_archive_name_accepts_gz_extension_only() {
    assert!(is_archive_name("backup-1700000000.tar.gz"));
    assert!(is_archive_name("old.gz"));
    assert!(is_archive_name("unrelated.gz"));
    assert!(is_archive_name("..gz"));
    assert!(!is_archive_name("backup-1700000000.tar"));
    assert!(!is_archive_name("backup-1700000000.tar.gz.part"));
    assert!(!is_archive_name("backup.tgz"));
    assert!(!is_archive_name("backup.zip"));
    assert!(!is_archive_name("notes.txt"));
}

#[test]
fn is_archive_name_is_case_sensitive() {
    assert!(!is_archive_name("old.GZ"));
    assert!(!is_archive_name("old.Gz"));
    assert!(!is_archive_name("old.gZ"));
}

#[test]
fn is_archive_name_needs_a_stem() {
    assert!(!is_archive_name(".gz"));
    assert!(!is_archive_name("gz"));
    assert!(!is_archive_name(""));
    assert!(!is_archive_name("a.gzz"));
    assert!(!is_archive_name("a.g"));
    assert!(!is_archive_name("a.gz."));
}

#[test]
fn is_archive_name_agrees_with_std_path() {
    let samples = [
        "", ".gz", "a.gz", "a.GZ", "a.tar.gz", "gz", "a.gz.", "a.gzip", "..gz", ".a.gz", "a.z",
    ];
    for name in samples {
        let expected = Path::new(name).extension().unwrap_or_default() == "gz";
        assert_eq!(is_archive_name(name), expected, "on {:?}", name);
    }
}
