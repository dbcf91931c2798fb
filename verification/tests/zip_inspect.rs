use std::io::Cursor;
use std::io::Write;

use zip::CompressionMethod;
use zip::write::SimpleFileOptions;
use zip::write::ZipWriter;

use zipcat::Archive;
use zipcat::CatError;
use zipcat::directory::find_name;
use zipcat::directory::name_is_dir;
use zipcat::messages::error_message;
use zipcat::messages::extract_stub_message;
use zipcat::messages::is_directory_message;
use zipcat::messages::not_found_message;

fn sample_zip() -> Vec<u8> {
    let mut w = ZipWriter::new(Cursor::new(Vec::new()));
    let opts = SimpleFileOptions::default().compression_method(CompressionMethod::Deflated);
    w.start_file("b.txt", opts).unwrap();
    w.write_all(b"second file\n").unwrap();
    w.add_directory("a", opts).unwrap();
    w.start_file("a/c.txt", opts).unwrap();
    w.write_all(b"Hello, world!\n").unwrap();
    w.finish().unwrap().into_inner()
}

fn empty_zip() -> Vec<u8> {
    let w = ZipWriter::new(Cursor::new(Vec::new()));
    w.finish().unwrap().into_inner()
}

#[test]
fn list_in_central_directory_order() {
    let archive = Archive::parse(sample_zip()).unwrap();
    let names = archive.names();
    assert_eq!(names, vec!["b.txt".to_string(), "a/".to_string(), "a/c.txt".to_string()]);
}

#[test]
fn len_counts_all_entries() {
    let archive = Archive::parse(sample_zip()).unwrap();
    assert_eq!(archive.len(), 3);
    assert_eq!(archive.name_at(0), "b.txt");
    assert_eq!(archive.name_at(2), "a/c.txt");
}

#[test]
fn cat_small_text_entry_reproduces_bytes() {
    let mut archive = Archive::parse(sample_zip()).unwrap();
    let data = archive.read_by_name("a/c.txt").unwrap();
    assert_eq!(data, b"Hello, world!\n".to_vec());
    let data = archive.read_by_name("b.txt").unwrap();
    assert_eq!(data, b"second file\n".to_vec());
}

#[test]
fn missing_entry_reports_not_found() {
    let mut archive = Archive::parse(sample_zip()).unwrap();
    let err = archive.read_by_name("missing.txt").unwrap_err();
    assert!(matches!(err, CatError::NotFound));
    let msg = err.message("missing.txt", "sample.zip");
    assert_eq!(msg, "missing.txt not found in sample.zip.");
}

#[test]
fn directory_entry_is_refused() {
    let mut archive = Archive::parse(sample_zip()).unwrap();
    let err = archive.read_by_name("a/").unwrap_err();
    assert!(matches!(err, CatError::IsDirectory));
    let msg = err.message("a/", "sample.zip");
    assert_eq!(msg, "a/ is a directory.");
}

#[test]
fn empty_archive_lists_nothing() {
    let mut archive = Archive::parse(empty_zip()).unwrap();
    assert_eq!(archive.len(), 0);
    assert!(archive.names().is_empty());
    let err = archive.read_by_name("anything").unwrap_err();
    assert!(matches!(err, CatError::NotFound));
}

#[test]
fn corrupted_entry_reports_archive_error() {
    let mut w = ZipWriter::new(Cursor::new(Vec::new()));
    let opts = SimpleFileOptions::default().compression_method(CompressionMethod::Stored);
    w.start_file("x.txt", opts).unwrap();
    w.write_all(b"UNIQUECONTENTBYTES").unwrap();
    let mut bytes = w.finish().unwrap().into_inner();
    let pos = bytes
        .windows(b"UNIQUECONTENTBYTES".len())
        .position(|win| win == b"UNIQUECONTENTBYTES")
        .unwrap();
    bytes[pos] ^= 0xff;
    let mut archive = Archive::parse(bytes).unwrap();
    let err = archive.read_by_name("x.txt").unwrap_err();
    assert!(matches!(err, CatError::Archive(_)));
    let msg = err.message("x.txt", "sample.zip");
    assert!(msg.starts_with("error: "));
}

#[test]
fn garbage_bytes_are_rejected() {
    let err = Archive::parse(b"this is not a zip archive".to_vec()).unwrap_err();
    let msg = err.message();
    assert!(msg.starts_with("error: "));
}

#[test]
fn extract_prints_only_its_stub_line() {
    let msg = extract_stub_message("sample.zip", "a/c.txt");
    assert_eq!(msg, "extract: zip=sample.zip, entry=a/c.txt");
}

#[test]
fn diagnostic_messages_are_exact() {
    assert_eq!(not_found_message("e.txt", "z.zip"), "e.txt not found in z.zip.");
    assert_eq!(is_directory_message("d/"), "d/ is a directory.");
    assert_eq!(error_message("boom"), "error: boom");
}

#[test]
fn directory_names_end_with_a_separator() {
    assert!(name_is_dir("a/"));
    assert!(name_is_dir("a\\"));
    assert!(!name_is_dir("a"));
    assert!(!name_is_dir(""));
    assert!(!name_is_dir("a/b"));
}

#[test]
fn find_name_returns_the_first_match() {
    let names = vec!["x".to_string(), "y".to_string(), "x".to_string()];
    assert_eq!(find_name(&names, "x"), Some(0));
    assert_eq!(find_name(&names, "y"), Some(1));
    assert_eq!(find_name(&names, "z"), None);
}
