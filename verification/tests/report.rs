use molniya::doctor::doctor;
use molniya::plan::RestorePlan;
use molniya::report::{final_summary, plan_summary, preset_text};

#[test]
fn the_plan_summary_names_database_folder_counts_and_preset() {
    let plan = RestorePlan {
        target_db: "shop".to_string(),
        backup_dir: "backups/dump".to_string(),
        files: (0..12).map(|i| format!("backups/dump/t{}.sql", i)).collect(),
        skipped: 3,
        preset_name: Some("light".to_string()),
    };
    assert_eq!(
        plan_summary(&plan),
        vec![
            "========================================".to_string(),
            "🗄 Database       : shop".to_string(),
            "📂 Backup folder  : backups/dump".to_string(),
            "📝 Tables to restore: 12".to_string(),
            "⏭ Tables skipped   : 3".to_string(),
            "🎛 Preset used     : light".to_string(),
            "========================================".to_string(),
        ]
    );
}

#[test]
fn the_plan_summary_marks_a_missing_preset() {
    let plan = RestorePlan {
        target_db: "shop".to_string(),
        backup_dir: "b".to_string(),
        files: Vec::new(),
        skipped: 0,
        preset_name: None,
    };
    let lines = plan_summary(&plan);
    assert_eq!(lines.len(), 7);
    assert_eq!(lines[3], "📝 Tables to restore: 0");
    assert_eq!(lines[4], "⏭ Tables skipped   : 0");
    assert_eq!(lines[5], "🎛 Preset used     : None");
}

#[test]
fn the_preset_line() {
    assert_eq!(preset_text(&Some("light".to_string())), "🎛 Preset used     : light");
    assert_eq!(preset_text(&None), "🎛 Preset used     : None");
}

#[test]
fn the_final_summary_with_a_preset() {
    assert_eq!(
        final_summary(10, 2, 1, &Some("light".to_string())),
        vec![
            String::new(),
            "========================================".to_string(),
            "🎉 Restore completed!".to_string(),
            "✅ Tables restored successfully: 10".to_string(),
            "⏭ Tables skipped (preset/exclude) : 2".to_string(),
            "❌ Tables failed to restore      : 1".to_string(),
            "🎛 Preset used     : light".to_string(),
            "========================================".to_string(),
        ]
    );
}

#[test]
fn the_final_summary_without_a_preset_has_no_preset_line() {
    assert_eq!(
        final_summary(0, 0, 0, &None),
        vec![
            String::new(),
            "========================================".to_string(),
            "🎉 Restore completed!".to_string(),
            "✅ Tables restored successfully: 0".to_string(),
            "⏭ Tables skipped (preset/exclude) : 0".to_string(),
            "❌ Tables failed to restore      : 0".to_string(),
            "========================================".to_string(),
        ]
    );
}

#[test]
fn a_healthy_environment() {
    let report = doctor(&None, &None);
    assert!(report.healthy);
    assert_eq!(
        report.lines,
        vec![
            "🔍 Running molniya doctor…".to_string(),
            "✅ MySQL connection OK".to_string(),
            "✅ Config directory writable".to_string(),
            "🎉 Environment looks healthy".to_string(),
        ]
    );
}

#[test]
fn each_check_reports_on_its_own() {
    let report = doctor(&Some("connection refused".to_string()), &None);
    assert!(!report.healthy);
    assert_eq!(
        report.lines,
        vec![
            "🔍 Running molniya doctor…".to_string(),
            "❌ MySQL connection failed: connection refused".to_string(),
            "✅ Config directory writable".to_string(),
        ]
    );

    let report = doctor(&None, &Some("read-only file system".to_string()));
    assert!(!report.healthy);
    assert_eq!(report.lines[1], "✅ MySQL connection OK");
    assert_eq!(report.lines[2], "❌ Config directory not writable: read-only file system");

    let report = doctor(&Some("a".to_string()), &Some("b".to_string()));
    assert!(!report.healthy);
    assert_eq!(report.lines.len(), 3);
    assert_eq!(report.lines[1], "❌ MySQL connection failed: a");
    assert_eq!(report.lines[2], "❌ Config directory not writable: b");
}
