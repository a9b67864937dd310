use molniya::extract::{extract_backup, BackupEntry};
use molniya::plan::{RestorePlan, RestoreStats};
use molniya::restore::{handle, is_affirmative, start, Action, Event, Phase, RestoreRun, Step};
use std::io::Write;

fn gz_of(text: &str) -> Vec<u8> {
    let mut encoder = flate2::write::GzEncoder::new(Vec::new(), flate2::Compression::default());
    encoder.write_all(text.as_bytes()).unwrap();
    encoder.finish().unwrap()
}

fn plan_of(files: &[&str], skipped: usize, preset: Option<&str>) -> RestorePlan {
    RestorePlan {
        target_db: "shop".to_string(),
        backup_dir: "backup".to_string(),
        files: files.iter().map(|f| f.to_string()).collect(),
        skipped,
        preset_name: preset.map(|p| p.to_string()),
    }
}

fn answer(text: &str) -> Event {
    Event::Answer { text: text.to_string() }
}

fn summary(restored: usize, skipped: usize, failed: usize, preset: Option<&str>) -> Vec<String> {
    let mut lines = vec![
        String::new(),
        "========================================".to_string(),
        "🎉 Restore completed!".to_string(),
        format!("✅ Tables restored successfully: {}", restored),
        format!("⏭ Tables skipped (preset/exclude) : {}", skipped),
        format!("❌ Tables failed to restore      : {}", failed),
    ];
    if let Some(name) = preset {
        lines.push(format!("🎛 Preset used     : {}", name));
    }
    lines.push("========================================".to_string());
    lines
}

fn drive(run: RestoreRun, events: Vec<Event>) -> (RestoreRun, Vec<Action>, Vec<String>) {
    let mut run = run;
    let mut actions = Vec::new();
    let mut lines = Vec::new();
    for event in events {
        let (next, step) = handle(run, event);
        run = next;
        actions.push(step.action);
        lines.extend(step.lines);
    }
    (run, actions, lines)
}

fn touches_database(action: &Action) -> bool {
    matches!(action, Action::Execute { .. } | Action::Replay { .. })
}

#[test]
fn only_the_exact_yes_is_affirmative() {
    assert!(is_affirmative("yes"));
    assert!(is_affirmative("yes\n"));
    assert!(is_affirmative("  yes\r\n"));
    assert!(!is_affirmative("Yes"));
    assert!(!is_affirmative("YES"));
    assert!(!is_affirmative("y"));
    assert!(!is_affirmative("yes please"));
    assert!(!is_affirmative("no"));
    assert!(!is_affirmative(""));
}

#[test]
fn start_shows_the_summary_and_asks() {
    let (run, step) = start(plan_of(&["backup/users.sql"], 1, Some("light")), false, false);
    assert_eq!(run.phase(), Phase::AwaitingConfirmation);
    assert!(!run.is_finished());
    assert_eq!(
        step.lines,
        vec![
            "========================================".to_string(),
            "🗄 Database       : shop".to_string(),
            "📂 Backup folder  : backup".to_string(),
            "📝 Tables to restore: 1".to_string(),
            "⏭ Tables skipped   : 1".to_string(),
            "🎛 Preset used     : light".to_string(),
            "========================================".to_string(),
        ]
    );
    assert_eq!(step.action, Action::Ask { prompt: "Proceed with restore? (yes/no): ".to_string() });
}

#[test]
fn start_names_no_preset_where_none_was_used() {
    let (_, step) = start(plan_of(&[], 0, None), false, true);
    assert_eq!(step.lines[5], "🎛 Preset used     : None");
    assert_eq!(step.lines[3], "📝 Tables to restore: 0");
}

#[test]
fn a_dry_run_ends_after_the_summary() {
    let (run, step) = start(plan_of(&["backup/users.sql"], 0, None), true, false);
    assert_eq!(run.phase(), Phase::DryRunExit);
    assert!(run.is_finished());
    assert_eq!(step.action, Action::Finish);
    assert_eq!(step.lines.len(), 8);
    assert_eq!(step.lines[7], "⚠️ Dry run enabled — no changes will be made");
    assert_eq!(run.stats(), RestoreStats { restored: 0, failed: 0 });
}

#[test]
fn a_dry_run_wins_over_yes_and_ignores_every_event() {
    let (run, step) = start(plan_of(&["backup/users.sql"], 0, None), true, true);
    assert_eq!(step.action, Action::Finish);
    let events = vec![
        answer("yes"),
        Event::Exists { found: false },
        Event::Executed,
        Event::Executed,
        Event::Replayed,
        Event::ReplayFailed,
    ];
    let (run, actions, lines) = drive(run, events);
    assert_eq!(run.phase(), Phase::DryRunExit);
    assert_eq!(run.stats(), RestoreStats { restored: 0, failed: 0 });
    assert!(actions.iter().all(|a| *a == Action::Finish));
    assert!(lines.is_empty());
}

#[test]
fn yes_in_advance_skips_the_question() {
    let (run, step) = start(plan_of(&["backup/users.sql"], 0, None), false, true);
    assert_eq!(run.phase(), Phase::Confirmed);
    assert_eq!(
        step.action,
        Action::CheckDatabase {
            query:
                "SELECT SCHEMA_NAME FROM INFORMATION_SCHEMA.SCHEMATA WHERE SCHEMA_NAME = 'shop'"
                    .to_string()
        }
    );
}

#[test]
fn declining_the_first_question_aborts() {
    let (run, _) = start(plan_of(&["backup/users.sql"], 0, None), false, false);
    let (run, step) = handle(run, answer("no\n"));
    assert_eq!(run.phase(), Phase::Aborted);
    assert!(run.is_finished());
    assert_eq!(step.lines, vec!["❌ Aborted by user".to_string()]);
    assert_eq!(step.action, Action::Finish);
    assert_eq!(run.stats(), RestoreStats { restored: 0, failed: 0 });

    let (run, actions, lines) =
        drive(run, vec![answer("yes"), Event::Exists { found: false }, Event::Executed]);
    assert_eq!(run.phase(), Phase::Aborted);
    assert!(actions.iter().all(|a| *a == Action::Finish));
    assert!(lines.is_empty());
}

#[test]
fn anything_but_yes_declines() {
    for text in ["", "\n", "y", "Yes", "YES", "yes!", "no", "sure"] {
        let (run, _) = start(plan_of(&["backup/users.sql"], 0, None), false, false);
        let (run, _) = handle(run, answer(text));
        assert_eq!(run.phase(), Phase::Aborted, "{:?}", text);
    }
}

#[test]
fn a_full_restore_into_a_new_database() {
    let (run, _) = start(plan_of(&["backup/a.sql", "backup/b.sql"], 2, Some("light")), false, false);
    let (run, step) = handle(run, answer("yes\n"));
    assert_eq!(run.phase(), Phase::Confirmed);
    assert!(step.lines.is_empty());
    assert!(matches!(step.action, Action::CheckDatabase { .. }));

    let (run, step) = handle(run, Event::Exists { found: false });
    assert_eq!(run.phase(), Phase::Creating);
    assert!(step.lines.is_empty());
    assert_eq!(
        step.action,
        Action::Execute { statement: "CREATE DATABASE IF NOT EXISTS `shop`".to_string() }
    );

    let (run, step) = handle(run, Event::Executed);
    assert_eq!(run.phase(), Phase::Selecting);
    assert_eq!(step.action, Action::Execute { statement: "USE `shop`".to_string() });

    let (run, step) = handle(run, Event::Executed);
    assert_eq!(run.phase(), Phase::Replaying);
    assert_eq!(step.action, Action::Replay { file: "backup/a.sql".to_string() });

    let (run, step) = handle(run, Event::Replayed);
    assert_eq!(run.phase(), Phase::Replaying);
    assert!(step.lines.is_empty());
    assert_eq!(step.action, Action::Replay { file: "backup/b.sql".to_string() });
    assert_eq!(run.stats(), RestoreStats { restored: 1, failed: 0 });

    let (run, step) = handle(run, Event::Replayed);
    assert_eq!(run.phase(), Phase::Completed);
    assert!(run.is_finished());
    assert_eq!(step.action, Action::Finish);
    assert_eq!(run.stats(), RestoreStats { restored: 2, failed: 0 });
    assert_eq!(step.lines, summary(2, 2, 0, Some("light")));
    assert_eq!(run.plan().target_db, "shop");
}

#[test]
fn one_failed_dump_does_not_stop_the_others() {
    let (run, _) = start(plan_of(&["backup/good.sql", "backup/bad.sql"], 0, None), false, true);
    let (run, actions, lines) = drive(
        run,
        vec![
            Event::Exists { found: false },
            Event::Executed,
            Event::Executed,
            Event::Replayed,
            Event::ReplayFailed,
        ],
    );
    assert_eq!(run.phase(), Phase::Completed);
    assert!(run.is_finished());
    assert_eq!(run.stats(), RestoreStats { restored: 1, failed: 1 });
    assert_eq!(actions[3], Action::Replay { file: "backup/bad.sql".to_string() });
    assert_eq!(actions[4], Action::Finish);
    assert_eq!(lines, summary(1, 0, 1, None));
}

#[test]
fn a_failure_of_the_first_dump_moves_on_to_the_second() {
    let (run, _) = start(plan_of(&["backup/bad.sql", "backup/good.sql"], 0, None), false, true);
    let (run, actions, _) = drive(
        run,
        vec![Event::Exists { found: false }, Event::Executed, Event::Executed, Event::ReplayFailed],
    );
    assert_eq!(run.phase(), Phase::Replaying);
    assert_eq!(run.stats(), RestoreStats { restored: 0, failed: 1 });
    assert_eq!(actions[3], Action::Replay { file: "backup/good.sql".to_string() });
}

#[test]
fn an_existing_database_is_asked_about() {
    let (run, _) = start(plan_of(&["backup/a.sql"], 0, None), false, true);
    let (run, step) = handle(run, Event::Exists { found: true });
    assert_eq!(run.phase(), Phase::AwaitingOverwrite);
    assert_eq!(step.lines, vec!["⚠️ Database 'shop' already exists!".to_string()]);
    assert_eq!(
        step.action,
        Action::Ask {
            prompt: "Do you want to restore into the existing database? (yes/no): ".to_string()
        }
    );

    let (run, step) = handle(run, answer("yes\n"));
    assert_eq!(run.phase(), Phase::Creating);
    assert!(step.lines.is_empty());
    assert!(matches!(step.action, Action::Execute { .. }));
}

#[test]
fn declining_an_existing_database_sends_no_statement() {
    let (run, first) = start(plan_of(&["backup/a.sql", "backup/b.sql"], 1, Some("light")), false, false);
    let (run, actions, lines) =
        drive(run, vec![answer("yes\n"), Event::Exists { found: true }, answer("no\n")]);
    assert_eq!(run.phase(), Phase::Declined);
    assert!(run.is_finished());
    assert_eq!(run.stats(), RestoreStats { restored: 0, failed: 0 });

    let mut all = vec![first.action];
    all.extend(actions);
    assert!(all.iter().all(|a| !touches_database(a)));
    assert_eq!(all.iter().filter(|a| matches!(a, Action::CheckDatabase { .. })).count(), 1);
    assert_eq!(all.last(), Some(&Action::Finish));

    let mut expected = vec![
        "⚠️ Database 'shop' already exists!".to_string(),
        "❌ Aborted by user".to_string(),
    ];
    expected.extend(summary(0, 1, 0, Some("light")));
    assert_eq!(lines, expected);

    let (run, later, shown) = drive(run, vec![Event::Executed, Event::Replayed, answer("yes")]);
    assert_eq!(run.phase(), Phase::Declined);
    assert_eq!(run.stats(), RestoreStats { restored: 0, failed: 0 });
    assert!(later.iter().all(|a| *a == Action::Finish));
    assert!(shown.is_empty());
}

#[test]
fn an_empty_plan_completes_without_replay() {
    let (run, _) = start(plan_of(&[], 3, None), false, true);
    let (run, actions, lines) =
        drive(run, vec![Event::Exists { found: false }, Event::Executed, Event::Executed]);
    assert_eq!(run.phase(), Phase::Completed);
    assert_eq!(run.stats(), RestoreStats { restored: 0, failed: 0 });
    assert_eq!(actions[2], Action::Finish);
    assert_eq!(lines, summary(0, 3, 0, None));
}

#[test]
fn an_event_out_of_turn_changes_nothing() {
    let (run, first) = start(plan_of(&["backup/a.sql"], 0, None), false, false);
    let (run, actions, lines) = drive(
        run,
        vec![Event::Executed, Event::Replayed, Event::Exists { found: true }, Event::ReplayFailed],
    );
    assert_eq!(run.phase(), Phase::AwaitingConfirmation);
    assert_eq!(run.stats(), RestoreStats { restored: 0, failed: 0 });
    assert!(actions.iter().all(|a| *a == first.action));
    assert!(lines.is_empty());

    let (run, _) = handle(run, answer("yes"));
    let (run, actions, _) = drive(run, vec![answer("yes"), Event::Executed, Event::Replayed]);
    assert_eq!(run.phase(), Phase::Confirmed);
    assert!(actions.iter().all(|a| matches!(a, Action::CheckDatabase { .. })));
}

#[test]
fn a_preset_excluding_orders_restores_users_only() {
    let entries = vec![
        BackupEntry { path: "backup/users.sql.gz".to_string(), data: gz_of("INSERT INTO users VALUES (1);") },
        BackupEntry { path: "backup/orders.sql.gz".to_string(), data: gz_of("INSERT INTO orders VALUES (1);") },
    ];
    let exclude = vec!["orders".to_string()];
    let extraction = extract_backup(&entries, &exclude).unwrap();
    let plan = RestorePlan::new(
        "shop".to_string(),
        "backup".to_string(),
        &extraction,
        Some("no-orders".to_string()),
    );
    assert_eq!(plan.files, vec!["backup/users.sql".to_string()]);
    assert_eq!(plan.skipped, 1);

    let (run, first) = start(plan, false, true);
    assert_eq!(first.lines[3], "📝 Tables to restore: 1");
    assert_eq!(first.lines[4], "⏭ Tables skipped   : 1");
    assert_eq!(first.lines[5], "🎛 Preset used     : no-orders");

    let (run, actions, lines) = drive(
        run,
        vec![Event::Exists { found: false }, Event::Executed, Event::Executed, Event::Replayed],
    );
    assert_eq!(
        actions,
        vec![
            Action::Execute { statement: "CREATE DATABASE IF NOT EXISTS `shop`".to_string() },
            Action::Execute { statement: "USE `shop`".to_string() },
            Action::Replay { file: "backup/users.sql".to_string() },
            Action::Finish,
        ]
    );
    assert_eq!(run.phase(), Phase::Completed);
    assert_eq!(run.stats(), RestoreStats { restored: 1, failed: 0 });
    assert_eq!(lines, summary(1, 1, 0, Some("no-orders")));
}

#[test]
fn the_tally_and_the_skipped_add_up_to_the_dumps() {
    let entries: Vec<BackupEntry> = ["a", "b", "c", "d", "e"]
        .iter()
        .map(|t| BackupEntry { path: format!("backup/{}.sql.gz", t), data: gz_of(t) })
        .chain(std::iter::once(BackupEntry { path: "backup/notes.txt".to_string(), data: Vec::new() }))
        .collect();
    let exclude = vec!["b".to_string(), "e".to_string()];
    let extraction = extract_backup(&entries, &exclude).unwrap();
    let plan = RestorePlan::new("shop".to_string(), "backup".to_string(), &extraction, None);
    let skipped = plan.skipped;
    let (run, _) = start(plan, false, true);
    let (run, actions, _) = drive(
        run,
        vec![
            Event::Exists { found: false },
            Event::Executed,
            Event::Executed,
            Event::Replayed,
            Event::ReplayFailed,
            Event::Replayed,
        ],
    );
    assert_eq!(run.phase(), Phase::Completed);
    let stats = run.stats();
    assert_eq!(stats.restored + stats.failed + skipped, 5);
    for action in &actions {
        if let Action::Replay { file } = action {
            assert!(file != "backup/b.sql" && file != "backup/e.sql");
        }
    }
}

#[test]
fn a_step_holds_lines_and_action() {
    let step = Step { lines: vec!["x".to_string()], action: Action::Finish };
    assert_eq!(step.clone(), step);
}
