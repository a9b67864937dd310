//! The run reporter: the lines shown before and after a replay.

use vstd::prelude::*;
use crate::plan::{PlanView, RestorePlan};
use crate::text::{concat2, decimal, decimal_text};

verus! {

/// The rule that frames a summary.
pub open spec fn rule_line() -> Seq<char> {
    "========================================"@
}

/// The line that names the preset of a run, or says that there is none.
pub open spec fn preset_line(preset_name: Option<Seq<char>>) -> Seq<char> {
    match preset_name {
        Some(name) => "🎛 Preset used     : "@ + name,
        None => "🎛 Preset used     : None"@,
    }
}

/// The summary of a plan, shown before anything is restored: the target
/// database, the directory of the backup, the number of tables to restore,
/// the number skipped, and the preset.
pub open spec fn plan_summary_of(plan: PlanView) -> Seq<Seq<char>> {
    seq![
        rule_line(),
        "🗄 Database       : "@ + plan.target_db,
        "📂 Backup folder  : "@ + plan.backup_dir,
        "📝 Tables to restore: "@ + decimal(plan.files.len()),
        "⏭ Tables skipped   : "@ + decimal(plan.skipped),
        preset_line(plan.preset_name),
        rule_line(),
    ]
}

/// The notice of a dry run.
pub open spec fn dry_run_notice() -> Seq<char> {
    "⚠️ Dry run enabled — no changes will be made"@
}

/// The notice that the operator declined.
pub open spec fn aborted_notice() -> Seq<char> {
    "❌ Aborted by user"@
}

/// The warning that the target database exists already.
pub open spec fn exists_notice(db: Seq<char>) -> Seq<char> {
    "⚠️ Database '"@ + db + "' already exists!"@
}

/// The question asked before anything is restored.
pub open spec fn proceed_prompt() -> Seq<char> {
    "Proceed with restore? (yes/no): "@
}

/// The question asked before restoring into a database that exists.
pub open spec fn overwrite_prompt() -> Seq<char> {
    "Do you want to restore into the existing database? (yes/no): "@
}

/// The summary shown after a replay: the tables restored, skipped and
/// failed, and the preset where one was used.
pub open spec fn final_summary_of(
    restored: nat,
    skipped: nat,
    failed: nat,
    preset_name: Option<Seq<char>>,
) -> Seq<Seq<char>> {
    let head = seq![
        Seq::<char>::empty(),
        rule_line(),
        "🎉 Restore completed!"@,
        "✅ Tables restored successfully: "@ + decimal(restored),
        "⏭ Tables skipped (preset/exclude) : "@ + decimal(skipped),
        "❌ Tables failed to restore      : "@ + decimal(failed),
    ];
    match preset_name {
        Some(name) => head.push(preset_line(preset_name)).push(rule_line()),
        None => head.push(rule_line()),
    }
}

/// The line that names the preset of a run, or says that there is none.
pub fn preset_text(preset_name: &Option<String>) -> (line: String)
    ensures
        line@ == preset_line(preset_name.deep_view()),
{
    match preset_name {
        Some(name) => concat2("🎛 Preset used     : ", name.as_str()),
        None => String::from_str("🎛 Preset used     : None"),
    }
}

/// The summary of a plan, shown before anything is restored.
pub fn plan_summary(plan: &RestorePlan) -> (lines: Vec<String>)
    ensures
        lines.deep_view() == plan_summary_of(plan@),
{
    let mut lines: Vec<String> = Vec::new();
    lines.push(String::from_str("========================================"));
    lines.push(concat2("🗄 Database       : ", plan.target_db.as_str()));
    lines.push(concat2("📂 Backup folder  : ", plan.backup_dir.as_str()));
    lines.push(concat2("📝 Tables to restore: ", decimal_text(plan.files.len()).as_str()));
    lines.push(concat2("⏭ Tables skipped   : ", decimal_text(plan.skipped).as_str()));
    lines.push(preset_text(&plan.preset_name));
    lines.push(String::from_str("========================================"));
    assert(lines.deep_view() =~= plan_summary_of(plan@));
    lines
}

/// The summary shown after a replay.
pub fn final_summary(
    restored: usize,
    skipped: usize,
    failed: usize,
    preset_name: &Option<String>,
) -> (lines: Vec<String>)
    ensures
        lines.deep_view() == final_summary_of(
            restored as nat,
            skipped as nat,
            failed as nat,
            preset_name.deep_view(),
        ),
{
    let mut lines: Vec<String> = Vec::new();
    lines.push(String::new());
    lines.push(String::from_str("========================================"));
    lines.push(String::from_str("🎉 Restore completed!"));
    lines.push(concat2("✅ Tables restored successfully: ", decimal_text(restored).as_str()));
    lines.push(concat2("⏭ Tables skipped (preset/exclude) : ", decimal_text(skipped).as_str()));
    lines.push(concat2("❌ Tables failed to restore      : ", decimal_text(failed).as_str()));
    if preset_name.is_some() {
        lines.push(preset_text(preset_name));
    }
    lines.push(String::from_str("========================================"));
    assert(lines.deep_view() =~= final_summary_of(
        restored as nat,
        skipped as nat,
        failed as nat,
        preset_name.deep_view(),
    ));
    lines
}

} // verus!
