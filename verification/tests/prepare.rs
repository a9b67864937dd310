use molniya::archive::{Extracted, PathKind};
use molniya::config::{Preset, RestoreConfig};
use molniya::db::{ConnectionProbe, ConnectionSettings};
use molniya::error::RestoreError;
use molniya::extract::{BackupEntry, TableDumpFile};
use molniya::plan::RestorePlan;
use molniya::prepare::{advance, begin, Finding, Preparation, RestoreRequest, Stage, Task};
use std::io::{Cursor, Write};
use zip::write::SimpleFileOptions;
use zip::ZipWriter;

fn gzipped(text: &str) -> Vec<u8> {
    let mut encoder = flate2::write::GzEncoder::new(Vec::new(), flate2::Compression::default());
    encoder.write_all(text.as_bytes()).unwrap();
    encoder.finish().unwrap()
}

fn zipped(members: &[(&str, Vec<u8>)]) -> Vec<u8> {
    let mut writer = ZipWriter::new(Cursor::new(Vec::new()));
    for (name, data) in members {
        writer.start_file(*name, SimpleFileOptions::default()).unwrap();
        writer.write_all(data).unwrap();
    }
    writer.finish().unwrap().into_inner()
}

fn request(backup: &str, preset: Option<&str>) -> RestoreRequest {
    RestoreRequest {
        target_db: "shop".to_string(),
        backup: backup.to_string(),
        preset: preset.map(|p| p.to_string()),
        settings: ConnectionSettings {
            user: "root".to_string(),
            password: String::new(),
            host: "127.0.0.1".to_string(),
            port: "3306".to_string(),
        },
    }
}

fn store_with(name: &str, tables: &[&str]) -> RestoreConfig {
    let mut store = RestoreConfig::new();
    store.insert(
        name.to_string(),
        Preset { exclude_tables: tables.iter().map(|t| t.to_string()).collect() },
    );
    store
}

fn inspected(backup: &str, preset: Option<&str>, found: PathKind) -> (Preparation, Task) {
    let (prep, _) = begin(request(backup, preset));
    let (prep, _) = advance(prep, Finding::Probed);
    advance(prep, Finding::Inspected { found })
}

#[test]
fn the_preparation_begins_with_the_connection_check() {
    let (prep, task) = begin(request("backup", None));
    assert_eq!(prep.stage(), Stage::Probing);
    assert!(!prep.is_finished());
    assert_eq!(
        task,
        Task::ProbeConnection {
            probe: ConnectionProbe {
                url: "mysql://root@127.0.0.1:3306".to_string(),
                statement: "SELECT 1".to_string(),
            }
        }
    );
    let (prep, task) = advance(prep, Finding::Probed);
    assert_eq!(prep.stage(), Stage::Inspecting);
    assert_eq!(task, Task::InspectBackup { path: "backup".to_string() });
}

#[test]
fn a_directory_without_preset_is_listed_at_once() {
    let (prep, task) = inspected("backup", None, PathKind::Directory);
    assert_eq!(prep.stage(), Stage::Listing);
    assert_eq!(task, Task::ListBackup { dir: "backup".to_string(), exclude: Vec::new() });
}

#[test]
fn a_directory_is_extracted_and_planned() {
    let (prep, _) = inspected("backup", None, PathKind::Directory);
    let entries = vec![
        BackupEntry { path: "backup/users.sql.gz".to_string(), data: gzipped("INSERT 1;") },
        BackupEntry { path: "backup/notes.txt".to_string(), data: Vec::new() },
    ];
    let (prep, task) = advance(prep, Finding::Listed { entries });
    assert_eq!(prep.stage(), Stage::Writing);
    assert_eq!(
        task,
        Task::WriteDumps {
            files: vec![TableDumpFile {
                table: "users".to_string(),
                path: "backup/users.sql".to_string(),
                sql: "INSERT 1;".to_string(),
            }]
        }
    );
    let (prep, task) = advance(prep, Finding::Written);
    assert_eq!(prep.stage(), Stage::Ready);
    assert!(prep.is_finished());
    assert_eq!(
        task,
        Task::Restore {
            plan: RestorePlan {
                target_db: "shop".to_string(),
                backup_dir: "backup".to_string(),
                files: vec!["backup/users.sql".to_string()],
                skipped: 0,
                preset_name: None,
            }
        }
    );
}

#[test]
fn a_preset_is_resolved_before_the_listing() {
    let (prep, task) = inspected("backup", Some("light"), PathKind::Directory);
    assert_eq!(prep.stage(), Stage::Resolving);
    assert_eq!(task, Task::LoadPresets);

    let (prep, task) = advance(prep, Finding::Presets { store: store_with("light", &["orders"]) });
    assert_eq!(prep.stage(), Stage::Listing);
    assert_eq!(
        task,
        Task::ListBackup { dir: "backup".to_string(), exclude: vec!["orders".to_string()] }
    );

    let entries = vec![
        BackupEntry { path: "backup/users.sql.gz".to_string(), data: gzipped("u") },
        BackupEntry { path: "backup/orders.sql.gz".to_string(), data: Vec::new() },
    ];
    let (prep, _) = advance(prep, Finding::Listed { entries });
    let (_, task) = advance(prep, Finding::Written);
    match task {
        Task::Restore { plan } => {
            assert_eq!(plan.files, vec!["backup/users.sql".to_string()]);
            assert_eq!(plan.skipped, 1);
            assert_eq!(plan.preset_name, Some("light".to_string()));
        }
        other => panic!("unexpected task {:?}", other),
    }
}

#[test]
fn an_unsupported_backup_fails_before_anything_else() {
    let (prep, task) = inspected("backup.tar", Some("light"), PathKind::File);
    assert_eq!(prep.stage(), Stage::Failed);
    assert!(prep.is_finished());
    assert_eq!(
        task,
        Task::Fail { error: RestoreError::UnsupportedFormat { extension: "tar".to_string() } }
    );
    let (prep, task) = advance(prep, Finding::Presets { store: RestoreConfig::new() });
    assert_eq!(prep.stage(), Stage::Failed);
    assert_eq!(task, Task::Nothing);
}

#[test]
fn a_missing_backup_fails_before_anything_else() {
    let (prep, task) = inspected("dump.zip", None, PathKind::Missing);
    assert_eq!(prep.stage(), Stage::Failed);
    assert_eq!(
        task,
        Task::Fail { error: RestoreError::UnsupportedFormat { extension: "zip".to_string() } }
    );
}

#[test]
fn a_missing_preset_fails_before_the_archive_is_read() {
    let (prep, task) = inspected("dump.zip", Some("lihgt"), PathKind::File);
    assert_eq!(prep.stage(), Stage::Resolving);
    assert_eq!(task, Task::LoadPresets);
    let (prep, task) = advance(prep, Finding::Presets { store: store_with("light", &["orders"]) });
    assert_eq!(prep.stage(), Stage::Failed);
    assert_eq!(
        task,
        Task::Fail { error: RestoreError::PresetNotFound { name: "lihgt".to_string() } }
    );
}

#[test]
fn a_zip_archive_is_read_unpacked_and_listed() {
    let statements = "CREATE TABLE a (id INT);";
    let bytes = zipped(&[("a.sql.gz", gzipped(statements))]);

    let (prep, task) = inspected("dump.zip", None, PathKind::File);
    assert_eq!(prep.stage(), Stage::ReadingArchive);
    assert_eq!(task, Task::ReadArchive { path: "dump.zip".to_string() });

    let (prep, task) = advance(prep, Finding::ArchiveRead { data: bytes });
    assert_eq!(prep.stage(), Stage::Unpacking);
    let unpacked = match task {
        Task::Unpack { dir, items } => {
            assert_eq!(dir, "dump");
            items
        }
        other => panic!("unexpected task {:?}", other),
    };
    assert_eq!(
        unpacked,
        vec![Extracted::File { name: "a.sql.gz".to_string(), data: gzipped(statements) }]
    );

    let (prep, task) = advance(prep, Finding::Unpacked);
    assert_eq!(prep.stage(), Stage::Listing);
    assert_eq!(task, Task::ListBackup { dir: "dump".to_string(), exclude: Vec::new() });

    let entries =
        vec![BackupEntry { path: "dump/a.sql.gz".to_string(), data: gzipped(statements) }];
    let (prep, task) = advance(prep, Finding::Listed { entries });
    assert_eq!(
        task,
        Task::WriteDumps {
            files: vec![TableDumpFile {
                table: "a".to_string(),
                path: "dump/a.sql".to_string(),
                sql: statements.to_string(),
            }]
        }
    );
    let (_, task) = advance(prep, Finding::Written);
    match task {
        Task::Restore { plan } => {
            assert_eq!(plan.backup_dir, "dump");
            assert_eq!(plan.files, vec!["dump/a.sql".to_string()]);
        }
        other => panic!("unexpected task {:?}", other),
    }
}

#[test]
fn a_damaged_archive_fails_the_preparation() {
    let (prep, _) = inspected("dump.zip", None, PathKind::File);
    let (prep, task) = advance(prep, Finding::ArchiveRead { data: b"no archive".to_vec() });
    assert_eq!(prep.stage(), Stage::Failed);
    assert!(matches!(task, Task::Fail { error: RestoreError::CorruptArchive { .. } }));
}

#[test]
fn a_damaged_dump_fails_the_preparation() {
    let (prep, _) = inspected("backup", None, PathKind::Directory);
    let entries = vec![
        BackupEntry { path: "backup/users.sql.gz".to_string(), data: gzipped("u") },
        BackupEntry { path: "backup/orders.sql.gz".to_string(), data: b"damaged".to_vec() },
    ];
    let (prep, task) = advance(prep, Finding::Listed { entries });
    assert_eq!(prep.stage(), Stage::Failed);
    match task {
        Task::Fail { error: RestoreError::CorruptDump { file, .. } } => {
            assert_eq!(file, "backup/orders.sql.gz")
        }
        other => panic!("unexpected task {:?}", other),
    }
}

#[test]
fn a_finding_out_of_turn_is_passed_over() {
    let (prep, _) = begin(request("backup", None));
    let (prep, task) = advance(prep, Finding::Written);
    assert_eq!(prep.stage(), Stage::Probing);
    assert_eq!(task, Task::Nothing);
    let (prep, task) = advance(prep, Finding::Inspected { found: PathKind::Directory });
    assert_eq!(prep.stage(), Stage::Probing);
    assert_eq!(task, Task::Nothing);
    let (prep, task) = advance(prep, Finding::Listed { entries: Vec::new() });
    assert_eq!(prep.stage(), Stage::Probing);
    assert_eq!(task, Task::Nothing);
}

#[test]
fn a_finished_preparation_asks_for_nothing_more() {
    let (prep, _) = inspected("backup", None, PathKind::Directory);
    let (prep, _) = advance(prep, Finding::Listed { entries: Vec::new() });
    let (prep, task) = advance(prep, Finding::Written);
    assert!(matches!(task, Task::Restore { .. }));
    let (prep, task) = advance(prep, Finding::Written);
    assert_eq!(prep.stage(), Stage::Ready);
    assert_eq!(task, Task::Nothing);
    let (_, task) = advance(prep, Finding::Probed);
    assert_eq!(task, Task::Nothing);
}
