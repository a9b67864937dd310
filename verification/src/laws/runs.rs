//! What holds of every run of the restore gate and the replay executor,
//! whatever the operator and the server answer.

use vstd::prelude::*;
use crate::extract::{
    dump_files_of,
    dumps,
    is_table_dump,
    kept_dumps,
    lemma_dumps_partition,
    lemma_kept_not_excluded,
    output_of,
    skipped_dumps,
    table_of,
    BackupEntryView,
};
use crate::db::{create_statement_of, exists_query_of, use_statement_of};
use crate::plan::{paths_of, PlanView};
use crate::restore::{is_yes, started, ActionView, EventView, Phase, RunView};

verus! {

/// The run after the caller reported `events`, one after the other.
pub open spec fn run_after(run: RunView, events: Seq<EventView>) -> RunView
    decreases events.len(),
{
    if events.len() == 0 {
        run
    } else {
        run_after(run, events.drop_last()).step(events.last())
    }
}

/// Whether the plan is the one that extracting `entries` under the
/// exclusion set `exclude` gives: its files are the decompressed dumps that
/// were kept, in their order, and its count is that of the dumps skipped.
pub open spec fn plan_covers(
    plan: PlanView,
    entries: Seq<BackupEntryView>,
    exclude: Seq<Seq<char>>,
) -> bool {
    &&& plan.files == paths_of(dump_files_of(kept_dumps(entries, exclude)))
    &&& plan.skipped == skipped_dumps(entries, exclude).len()
}

/// Whether an action changes the target database: it sends a statement or
/// replays a dump.
pub open spec fn changes_database(action: ActionView) -> bool {
    action is Execute || action is Replay
}

/// Whether an action reaches the database server at all.
pub open spec fn reaches_server(action: ActionView) -> bool {
    action is CheckDatabase || changes_database(action)
}

/// The phases in which nothing was sent to the server yet.
pub open spec fn silent(phase: Phase) -> bool {
    phase == Phase::AwaitingConfirmation || phase == Phase::DryRunExit || phase == Phase::Aborted
}

/// The phases in which nothing was changed on the server yet.
pub open spec fn quiet(phase: Phase) -> bool {
    silent(phase) || phase == Phase::Confirmed || phase == Phase::AwaitingOverwrite || phase
        == Phase::Declined
}

/// Whether the operator said yes to the first question at some point of the
/// events: an affirmative answer came while the run waited for it.
pub open spec fn was_confirmed(run: RunView, events: Seq<EventView>) -> bool {
    exists|k: int|
        0 <= k < events.len() && run_after(run, events.take(k)).phase
            == Phase::AwaitingConfirmation && (#[trigger] events[k] matches EventView::Answer {
            text,
        } && is_yes(text))
}

/// Whether the way into the database was cleared at some point of the
/// events: the server said that the database does not exist, or the
/// operator said yes to restoring into the one that exists.
pub open spec fn was_cleared(run: RunView, events: Seq<EventView>) -> bool {
    exists|k: int|
        0 <= k < events.len() && match #[trigger] events[k] {
            EventView::Exists { found } => !found && run_after(run, events.take(k)).phase
                == Phase::Confirmed,
            EventView::Answer { text } => is_yes(text) && run_after(run, events.take(k)).phase
                == Phase::AwaitingOverwrite,
            _ => false,
        }
}

/// A step keeps the invariant of the run and its plan.
pub proof fn law_step_keeps_invariant(run: RunView, event: EventView)
    requires
        run.inv(),
    ensures
        run.step(event).inv(),
        run.step(event).plan == run.plan,
{
}

/// A run that has ended stays as it is, whatever is reported to it.
pub proof fn law_finished_run_stays(run: RunView, event: EventView)
    requires
        run.finished(),
    ensures
        run.step(event) == run,
{
}

/// Every run keeps the invariant and its plan from its start on.
pub proof fn law_run_keeps_invariant(
    plan: PlanView,
    dry_run: bool,
    yes: bool,
    events: Seq<EventView>,
)
    ensures
        run_after(started(plan, dry_run, yes), events).inv(),
        run_after(started(plan, dry_run, yes), events).plan == plan,
    decreases events.len(),
{
    if events.len() > 0 {
        law_run_keeps_invariant(plan, dry_run, yes, events.drop_last());
        law_step_keeps_invariant(
            run_after(started(plan, dry_run, yes), events.drop_last()),
            events.last(),
        );
    }
}

/// The run after one more event is the step of the run before it.
proof fn lemma_run_prefix(run: RunView, events: Seq<EventView>, k: int)
    requires
        0 <= k < events.len(),
    ensures
        run_after(run, events.take(k + 1)) == run_after(run, events.take(k)).step(events[k]),
{
    assert(events.take(k + 1).drop_last() =~= events.take(k));
}

/// A run that is quiet after `events` was quiet after each part of them,
/// and one that is silent was silent.
proof fn lemma_quiet_before(run: RunView, events: Seq<EventView>, k: int)
    requires
        0 <= k <= events.len(),
    ensures
        quiet(run_after(run, events).phase) ==> quiet(run_after(run, events.take(k)).phase),
        silent(run_after(run, events).phase) ==> silent(run_after(run, events.take(k)).phase),
    decreases events.len() - k,
{
    if k == events.len() {
        assert(events.take(k) =~= events);
    } else {
        lemma_quiet_before(run, events, k + 1);
        lemma_run_prefix(run, events, k);
    }
}

/// When a run has completed, every table dump of the backup directory was
/// counted once: as restored, as failed, or as skipped.
pub proof fn law_every_dump_is_counted(
    entries: Seq<BackupEntryView>,
    exclude: Seq<Seq<char>>,
    plan: PlanView,
    dry_run: bool,
    yes: bool,
    events: Seq<EventView>,
)
    requires
        plan_covers(plan, entries, exclude),
        run_after(started(plan, dry_run, yes), events).phase == Phase::Completed,
    ensures
        ({
            let end = run_after(started(plan, dry_run, yes), events);
            end.restored + end.failed + plan.skipped == dumps(entries).len()
        }),
{
    law_run_keeps_invariant(plan, dry_run, yes, events);
    lemma_dumps_partition(entries, exclude);
}

/// No run replays the dump of an excluded table: a file that is up for
/// replay is the decompressed dump of a table that the exclusion set does
/// not hold.
pub proof fn law_excluded_tables_are_not_replayed(
    entries: Seq<BackupEntryView>,
    exclude: Seq<Seq<char>>,
    plan: PlanView,
    dry_run: bool,
    yes: bool,
    events: Seq<EventView>,
)
    requires
        plan_covers(plan, entries, exclude),
        run_after(started(plan, dry_run, yes), events).pending() is Replay,
    ensures
        exists|i: int|
            0 <= i < entries.len() && is_table_dump((#[trigger] entries[i]).path)
                && !exclude.contains(table_of(entries[i].path)) && run_after(
                started(plan, dry_run, yes),
                events,
            ).pending() == (ActionView::Replay { file: output_of(entries[i].path) }),
{
    let end = run_after(started(plan, dry_run, yes), events);
    law_run_keeps_invariant(plan, dry_run, yes, events);
    lemma_kept_not_excluded(entries, exclude);
    let kept = kept_dumps(entries, exclude);
    let e = kept[end.next as int];
    assert(plan.files[end.next as int] == output_of(e.path));
    let i = choose|i: int| 0 <= i < entries.len() && entries[i] == e;
    assert(is_table_dump(entries[i].path));
}

/// A run sends four things to the server and no others: the query for the
/// target database, the statement that creates it unless it exists, the
/// statement that selects it, and the dump files of its plan.
pub proof fn law_statements_are_of_four_shapes(
    plan: PlanView,
    dry_run: bool,
    yes: bool,
    events: Seq<EventView>,
)
    ensures
        ({
            let action = run_after(started(plan, dry_run, yes), events).pending();
            match action {
                ActionView::CheckDatabase { query } => query == exists_query_of(plan.target_db),
                ActionView::Execute { statement } => statement == create_statement_of(
                    plan.target_db,
                ) || statement == use_statement_of(plan.target_db),
                ActionView::Replay { file } => plan.files.contains(file),
                _ => true,
            }
        }),
{
    law_run_keeps_invariant(plan, dry_run, yes, events);
    let now = run_after(started(plan, dry_run, yes), events);
    if now.phase == Phase::Replaying {
        assert(plan.files[now.next as int] == now.pending()->Replay_file);
    }
}

/// The dumps are replayed in the order of the plan, one at a time: a run
/// that replays is at the file after those it has counted.
pub proof fn law_replay_follows_the_plan(
    plan: PlanView,
    dry_run: bool,
    yes: bool,
    events: Seq<EventView>,
)
    requires
        run_after(started(plan, dry_run, yes), events).phase == Phase::Replaying,
    ensures
        ({
            let now = run_after(started(plan, dry_run, yes), events);
            &&& now.restored + now.failed < plan.files.len()
            &&& now.pending() == (ActionView::Replay {
                file: plan.files[(now.restored + now.failed) as int],
            })
        }),
{
    law_run_keeps_invariant(plan, dry_run, yes, events);
}

/// A dry run ends where it starts: it asks for nothing, whatever is
/// reported to it, and counts nothing.
pub proof fn law_dry_run_changes_nothing(plan: PlanView, yes: bool, events: Seq<EventView>)
    ensures
        run_after(started(plan, true, yes), events) == started(plan, true, yes),
        run_after(started(plan, true, yes), events).phase == Phase::DryRunExit,
        run_after(started(plan, true, yes), events).pending() == ActionView::Finish,
        run_after(started(plan, true, yes), events).restored == 0,
        run_after(started(plan, true, yes), events).failed == 0,
    decreases events.len(),
{
    if events.len() > 0 {
        law_dry_run_changes_nothing(plan, yes, events.drop_last());
    }
}

/// Any answer but the exact affirmative ends the run: the first question
/// leads to `Aborted`, the one about the database that exists to
/// `Declined`.
pub proof fn law_only_yes_proceeds(run: RunView, text: Seq<char>)
    ensures
        run.phase == Phase::AwaitingConfirmation ==> run.step(EventView::Answer { text }).phase
            == if is_yes(text) {
            Phase::Confirmed
        } else {
            Phase::Aborted
        },
        run.phase == Phase::AwaitingOverwrite ==> run.step(EventView::Answer { text }).phase
            == if is_yes(text) {
            Phase::Creating
        } else {
            Phase::Declined
        },
{
}

/// A run that the operator declined, at either question, has restored
/// nothing and failed at nothing, and never asked for a change of the
/// database; one declined at the first question never reached the server.
pub proof fn law_declined_run_changes_nothing(
    plan: PlanView,
    dry_run: bool,
    yes: bool,
    events: Seq<EventView>,
    k: int,
)
    requires
        0 <= k <= events.len(),
        ({
            let end = run_after(started(plan, dry_run, yes), events);
            end.phase == Phase::Aborted || end.phase == Phase::Declined
        }),
    ensures
        ({
            let end = run_after(started(plan, dry_run, yes), events);
            let earlier = run_after(started(plan, dry_run, yes), events.take(k));
            &&& end.restored == 0
            &&& end.failed == 0
            &&& !changes_database(earlier.pending())
            &&& end.phase == Phase::Aborted ==> !reaches_server(earlier.pending())
        }),
{
    law_run_keeps_invariant(plan, dry_run, yes, events);
    lemma_quiet_before(started(plan, dry_run, yes), events, k);
}

/// Only a confirmed run reaches the server: where a run is past the first
/// question, it is no dry run, and either yes was given in advance or the
/// operator answered the question with yes.
pub proof fn law_only_confirmed_runs_proceed(
    plan: PlanView,
    dry_run: bool,
    yes: bool,
    events: Seq<EventView>,
)
    requires
        !silent(run_after(started(plan, dry_run, yes), events).phase),
    ensures
        !dry_run,
        yes || was_confirmed(started(plan, dry_run, yes), events),
    decreases events.len(),
{
    let start = started(plan, dry_run, yes);
    if dry_run {
        law_dry_run_changes_nothing(plan, yes, events);
    }
    if events.len() > 0 {
        let before = events.drop_last();
        let k = events.len() - 1;
        assert(events.take(k) =~= before);
        if silent(run_after(start, before).phase) {
            assert(events[k] == events.last());
        } else {
            law_only_confirmed_runs_proceed(plan, dry_run, yes, before);
            if !yes {
                let j = choose|j: int|
                    0 <= j < before.len() && run_after(start, before.take(j)).phase
                        == Phase::AwaitingConfirmation && (
                    #[trigger] before[j] matches EventView::Answer { text } && is_yes(text));
                assert(before.take(j) =~= events.take(j));
                assert(events[j] == before[j]);
            }
        }
    }
}

/// The database is changed only once the way is clear: where a run has
/// come to send a statement or to replay a dump, the server had said that
/// the database does not exist, or the operator had said yes to restoring
/// into the one that exists.
pub proof fn law_database_is_changed_only_when_cleared(
    plan: PlanView,
    dry_run: bool,
    yes: bool,
    events: Seq<EventView>,
)
    requires
        !quiet(run_after(started(plan, dry_run, yes), events).phase),
    ensures
        was_cleared(started(plan, dry_run, yes), events),
    decreases events.len(),
{
    let start = started(plan, dry_run, yes);
    if events.len() > 0 {
        let before = events.drop_last();
        let k = events.len() - 1;
        assert(events.take(k) =~= before);
        if quiet(run_after(start, before).phase) {
            assert(events[k] == events.last());
        } else {
            law_database_is_changed_only_when_cleared(plan, dry_run, yes, before);
            let j = choose|j: int|
                0 <= j < before.len() && match #[trigger] before[j] {
                    EventView::Exists { found } => !found && run_after(
                        start,
                        before.take(j),
                    ).phase == Phase::Confirmed,
                    EventView::Answer { text } => is_yes(text) && run_after(
                        start,
                        before.take(j),
                    ).phase == Phase::AwaitingOverwrite,
                    _ => false,
                };
            assert(before.take(j) =~= events.take(j));
            assert(events[j] == before[j]);
        }
    }
}

} // verus!
