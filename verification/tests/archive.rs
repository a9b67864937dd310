use molniya::archive::{
    classify_backup, extract_zip, unpack_entry, ArchiveEntry, BackupKind, Extracted, PathKind,
};
use molniya::error::{ErrorClass, RestoreError};
use molniya::extract::{extract_backup, BackupEntry};
use std::io::{Cursor, Write};
use zip::write::SimpleFileOptions;
use zip::{CompressionMethod, ZipWriter};

fn gz(text: &str) -> Vec<u8> {
    let mut encoder = flate2::write::GzEncoder::new(Vec::new(), flate2::Compression::default());
    encoder.write_all(text.as_bytes()).unwrap();
    encoder.finish().unwrap()
}

fn zip_of(members: &[(&str, &[u8])], method: CompressionMethod) -> Vec<u8> {
    let mut writer = ZipWriter::new(Cursor::new(Vec::new()));
    let options = SimpleFileOptions::default().compression_method(method);
    for (name, data) in members {
        if name.ends_with('/') {
            writer.add_directory(*name, options).unwrap();
        } else {
            writer.start_file(*name, options).unwrap();
            writer.write_all(data).unwrap();
        }
    }
    writer.finish().unwrap().into_inner()
}

#[test]
fn a_directory_is_accepted_whatever_its_name() {
    let source = classify_backup("backups/nightly", PathKind::Directory).unwrap();
    assert_eq!(source.kind, BackupKind::Directory);
    assert_eq!(source.path, "backups/nightly");
    assert_eq!(source.normalized_dir(), "backups/nightly");

    let source = classify_backup("backups/nightly.tar", PathKind::Directory).unwrap();
    assert_eq!(source.kind, BackupKind::Directory);
    assert_eq!(source.normalized_dir(), "backups/nightly.tar");
}

#[test]
fn a_zip_file_is_accepted_and_named_by_its_stem() {
    let source = classify_backup("backups/dump.zip", PathKind::File).unwrap();
    assert_eq!(source.kind, BackupKind::ZipArchive);
    assert_eq!(source.path, "backups/dump.zip");
    assert_eq!(source.normalized_dir(), "backups/dump");
}

#[test]
fn another_extension_is_refused_by_name() {
    let error = classify_backup("backups/dump.tar", PathKind::File).unwrap_err();
    assert_eq!(error, RestoreError::UnsupportedFormat { extension: "tar".to_string() });
    assert_eq!(error.message(), "Unsupported backup format: tar");
    assert_eq!(error.class(), ErrorClass::Input);

    let error = classify_backup("dump.ZIP", PathKind::File).unwrap_err();
    assert_eq!(error, RestoreError::UnsupportedFormat { extension: "ZIP".to_string() });
}

#[test]
fn a_file_without_extension_is_refused_as_unknown() {
    let error = classify_backup("backups/dump", PathKind::File).unwrap_err();
    assert_eq!(error, RestoreError::UnsupportedFormat { extension: "<unknown>".to_string() });
    assert_eq!(error.message(), "Unsupported backup format: <unknown>");

    let error = classify_backup(".zip", PathKind::File).unwrap_err();
    assert_eq!(error, RestoreError::UnsupportedFormat { extension: "<unknown>".to_string() });
}

#[test]
fn a_missing_path_is_refused_whatever_its_extension() {
    let error = classify_backup("backups/dump.zip", PathKind::Missing).unwrap_err();
    assert_eq!(error, RestoreError::UnsupportedFormat { extension: "zip".to_string() });

    let error = classify_backup("backups/nightly", PathKind::Missing).unwrap_err();
    assert_eq!(error, RestoreError::UnsupportedFormat { extension: "<unknown>".to_string() });
}

#[test]
fn unpack_entry_tells_directories_from_files() {
    let dir = unpack_entry(ArchiveEntry { name: "tables/".to_string(), data: Vec::new() });
    assert_eq!(dir, Extracted::Directory { name: "tables/".to_string() });

    let file = unpack_entry(ArchiveEntry { name: "tables/a.sql.gz".to_string(), data: vec![1, 2] });
    assert_eq!(file, Extracted::File { name: "tables/a.sql.gz".to_string(), data: vec![1, 2] });
}

#[test]
fn extract_zip_lists_every_entry_in_order() {
    let bytes = zip_of(
        &[("tables/", b""), ("tables/a.sql.gz", b"first"), ("b.sql.gz", b"second")],
        CompressionMethod::Stored,
    );
    let items = extract_zip(bytes).unwrap();
    assert_eq!(
        items,
        vec![
            Extracted::Directory { name: "tables/".to_string() },
            Extracted::File { name: "tables/a.sql.gz".to_string(), data: b"first".to_vec() },
            Extracted::File { name: "b.sql.gz".to_string(), data: b"second".to_vec() },
        ]
    );
}

#[test]
fn extract_zip_decompresses_deflated_entries() {
    let text = "INSERT INTO t VALUES (1);\n".repeat(200);
    let bytes = zip_of(&[("t.sql", text.as_bytes())], CompressionMethod::Deflated);
    assert!(bytes.len() < text.len());
    let items = extract_zip(bytes).unwrap();
    assert_eq!(
        items,
        vec![Extracted::File { name: "t.sql".to_string(), data: text.into_bytes() }]
    );
}

#[test]
fn extract_zip_of_an_empty_archive_is_empty() {
    let bytes = zip_of(&[], CompressionMethod::Stored);
    assert_eq!(extract_zip(bytes).unwrap(), Vec::new());
}

#[test]
fn extract_zip_is_the_same_each_time() {
    let bytes = zip_of(
        &[("a.sql.gz", &gz("CREATE TABLE a (id INT);")), ("b.sql.gz", &gz("SELECT 1;"))],
        CompressionMethod::Deflated,
    );
    let first = extract_zip(bytes.clone()).unwrap();
    let second = extract_zip(bytes).unwrap();
    assert_eq!(first, second);
}

#[test]
fn extract_zip_refuses_what_is_no_archive() {
    let error = extract_zip(b"this is no zip archive".to_vec()).unwrap_err();
    assert!(matches!(error, RestoreError::CorruptArchive { .. }));
    assert_eq!(error.class(), ErrorClass::Extraction);
    assert!(error.message().starts_with("Cannot read the archive: "));

    let error = extract_zip(Vec::new()).unwrap_err();
    assert!(matches!(error, RestoreError::CorruptArchive { .. }));
}

#[test]
fn extract_zip_fails_as_a_whole_on_a_damaged_entry() {
    let payload = b"payload-of-the-second-entry";
    let mut bytes = zip_of(
        &[("good.sql.gz", b"fine"), ("bad.sql.gz", payload)],
        CompressionMethod::Stored,
    );
    let at = bytes.windows(payload.len()).position(|w| w == payload).unwrap();
    bytes[at] ^= 0xff;
    let error = extract_zip(bytes).unwrap_err();
    assert!(matches!(error, RestoreError::CorruptArchive { .. }));
}

#[test]
fn a_zipped_backup_unpacks_to_its_sibling_directory() {
    let statements = "CREATE TABLE a (id INT);\n";
    let bytes = zip_of(&[("a.sql.gz", &gz(statements))], CompressionMethod::Deflated);

    let source = classify_backup("dump.zip", PathKind::File).unwrap();
    assert_eq!(source.kind, BackupKind::ZipArchive);
    let dir = source.normalized_dir();
    assert_eq!(dir, "dump");

    let items = extract_zip(bytes).unwrap();
    assert_eq!(items.len(), 1);
    let (name, data) = match &items[0] {
        Extracted::File { name, data } => (name.clone(), data.clone()),
        Extracted::Directory { .. } => panic!("a file was expected"),
    };
    assert_eq!(name, "a.sql.gz");

    let entries = vec![BackupEntry { path: format!("{}/{}", dir, name), data }];
    let extraction = extract_backup(&entries, &Vec::new()).unwrap();
    assert_eq!(extraction.skipped, 0);
    assert_eq!(extraction.files.len(), 1);
    assert_eq!(extraction.files[0].path, "dump/a.sql");
    assert_eq!(extraction.files[0].table, "a");
    assert_eq!(extraction.files[0].sql, statements);
}
