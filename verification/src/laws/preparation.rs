//! What holds of every preparation of a restore, whatever the caller
//! finds.

use vstd::prelude::*;
use crate::archive::{normalized_dir_of, BackupKind};
use crate::extract::{all_decompress, kept_dumps, BackupEntryView};
use crate::laws::runs::plan_covers;
use crate::paths::{extension_of, without_extension};
use crate::prepare::{begun, FindingView, PrepView, RequestView, Stage, TaskView};

verus! {

/// The preparation after the caller reported `findings`, one after the
/// other.
pub open spec fn prep_after(prep: PrepView, findings: Seq<FindingView>) -> PrepView
    decreases findings.len(),
{
    if findings.len() == 0 {
        prep
    } else {
        prep_after(prep, findings.drop_last()).step(findings.last())
    }
}

/// The task that the caller got when it reported the finding at `k`.
pub open spec fn task_at(prep: PrepView, findings: Seq<FindingView>, k: int) -> TaskView {
    prep_after(prep, findings.take(k)).task(findings[k])
}

/// Whether a task is part of the extraction: it reads the archive or the
/// backup directory, or writes to disk.
pub open spec fn extracts(task: TaskView) -> bool {
    task is ReadArchive || task is Unpack || task is ListBackup || task is WriteDumps
}

/// Whether a task reports an error of the input: a backup of no accepted
/// kind, or a preset that the store does not hold.
pub open spec fn is_input_error(task: TaskView) -> bool {
    task matches TaskView::Fail { error } && (error is UnsupportedFormat || error is PresetNotFound)
}

/// How far a stage is into the preparation.
pub open spec fn stage_rank(stage: Stage) -> int {
    match stage {
        Stage::Probing => 0,
        Stage::Inspecting => 1,
        Stage::Resolving => 2,
        Stage::ReadingArchive => 3,
        Stage::Unpacking => 4,
        Stage::Listing => 5,
        Stage::Writing => 6,
        Stage::Ready => 7,
        Stage::Failed => 8,
    }
}

/// Whether the backup was found to be of an accepted kind at this stage.
pub open spec fn past_inspection(stage: Stage) -> bool {
    stage == Stage::Resolving || past_resolution(stage)
}

/// Whether the exclusion set was resolved at this stage.
pub open spec fn past_resolution(stage: Stage) -> bool {
    stage == Stage::ReadingArchive || stage == Stage::Unpacking || stage == Stage::Listing
        || stage == Stage::Writing || stage == Stage::Ready
}

/// Whether a preparation keeps to its request: it is about the backup, the
/// preset and the database asked for; once the backup is inspected, the
/// directory of the backup is the backup itself or, for an archive, the
/// path without its extension; only an archive is read and unpacked; and
/// once the exclusion set is resolved, the plan names the preset asked for,
/// and without a preset nothing is excluded.
pub open spec fn keeps_to(prep: PrepView, request: RequestView) -> bool {
    &&& prep.backup == request.backup
    &&& prep.preset == request.preset
    &&& prep.plan.target_db == request.target_db
    &&& past_inspection(prep.stage) ==> prep.plan.backup_dir == normalized_dir_of(
        prep.backup,
        prep.kind,
    )
    &&& past_inspection(prep.stage) && prep.kind == BackupKind::ZipArchive ==> extension_of(
        prep.backup,
    ) == Some("zip"@)
    &&& prep.stage == Stage::ReadingArchive || prep.stage == Stage::Unpacking ==> prep.kind
        == BackupKind::ZipArchive
    &&& past_resolution(prep.stage) ==> prep.plan.preset_name == request.preset
    &&& past_resolution(prep.stage) && request.preset is None ==> prep.exclude
        == Seq::<Seq<char>>::empty()
}

/// The preparation after one more finding is the step of the preparation
/// before it.
proof fn lemma_prep_prefix(prep: PrepView, findings: Seq<FindingView>, k: int)
    requires
        0 <= k < findings.len(),
    ensures
        prep_after(prep, findings.take(k + 1)) == prep_after(prep, findings.take(k)).step(
            findings[k],
        ),
{
    assert(findings.take(k + 1).drop_last() =~= findings.take(k));
}

/// A preparation never goes back to an earlier stage.
pub proof fn law_stages_only_advance(
    prep: PrepView,
    findings: Seq<FindingView>,
    j: int,
    k: int,
)
    requires
        0 <= j <= k <= findings.len(),
    ensures
        stage_rank(prep_after(prep, findings.take(j)).stage) <= stage_rank(
            prep_after(prep, findings.take(k)).stage,
        ),
    decreases k - j,
{
    if j < k {
        law_stages_only_advance(prep, findings, j + 1, k);
        lemma_prep_prefix(prep, findings, j);
    }
}

/// The errors of the input are found before any extraction: when a
/// preparation fails because the backup is of no accepted kind or because
/// the preset is missing, no task before that read the archive or the
/// directory, or wrote to disk.
pub proof fn law_input_errors_come_first(
    request: RequestView,
    findings: Seq<FindingView>,
    j: int,
    k: int,
)
    requires
        0 <= j < k < findings.len(),
        is_input_error(task_at(begun(request), findings, k)),
    ensures
        !extracts(task_at(begun(request), findings, j)),
{
    let start = begun(request);
    lemma_prep_prefix(start, findings, j);
    law_stages_only_advance(start, findings, j + 1, k);
}

/// The preset store is read at most once.
pub proof fn law_store_is_read_once(
    request: RequestView,
    findings: Seq<FindingView>,
    j: int,
    k: int,
)
    requires
        0 <= j < k < findings.len(),
        task_at(begun(request), findings, j) is LoadPresets,
    ensures
        !(task_at(begun(request), findings, k) is LoadPresets),
{
    let start = begun(request);
    lemma_prep_prefix(start, findings, j);
    law_stages_only_advance(start, findings, j + 1, k);
}

/// Every preparation keeps to its request, from its beginning on.
pub proof fn law_preparation_keeps_to_the_request(
    request: RequestView,
    findings: Seq<FindingView>,
)
    ensures
        keeps_to(prep_after(begun(request), findings), request),
    decreases findings.len(),
{
    if findings.len() > 0 {
        law_preparation_keeps_to_the_request(request, findings.drop_last());
    }
}

/// An archive is unpacked beside itself: into the directory that its path
/// names once the extension `zip` is taken off.
pub proof fn law_archive_unpacks_beside_itself(
    request: RequestView,
    findings: Seq<FindingView>,
    k: int,
)
    requires
        0 <= k < findings.len(),
        task_at(begun(request), findings, k) is Unpack,
    ensures
        extension_of(request.backup) == Some("zip"@),
        task_at(begun(request), findings, k)->Unpack_dir == without_extension(request.backup),
{
    law_preparation_keeps_to_the_request(request, findings.take(k));
}

/// The plan that a preparation hands over is for the database and the
/// preset of the request, and for the directory of its backup.
pub proof fn law_plan_is_for_the_request(
    request: RequestView,
    findings: Seq<FindingView>,
    k: int,
)
    requires
        0 <= k < findings.len(),
        task_at(begun(request), findings, k) is Restore,
    ensures
        ({
            let plan = task_at(begun(request), findings, k)->Restore_plan;
            &&& plan.target_db == request.target_db
            &&& plan.preset_name == request.preset
            &&& plan.backup_dir == request.backup || (extension_of(request.backup) == Some("zip"@)
                && plan.backup_dir == without_extension(request.backup))
        }),
{
    law_preparation_keeps_to_the_request(request, findings.take(k));
}

/// The plan that a preparation hands over is the one that the listing of
/// the backup directory gives under the exclusion set of the preparation.
pub proof fn law_plan_covers_listing(prep: PrepView, entries: Seq<BackupEntryView>)
    requires
        prep.stage == Stage::Listing,
        all_decompress(kept_dumps(entries, prep.exclude)),
    ensures
        ({
            let listed = prep.step(FindingView::Listed { entries });
            &&& listed.stage == Stage::Writing
            &&& plan_covers(listed.plan, entries, prep.exclude)
            &&& listed.task(FindingView::Written) == (TaskView::Restore { plan: listed.plan })
        }),
{
}

/// What an archive unpacks to depends on its bytes and on the directory of
/// the backup alone: two preparations that read the same bytes for the same
/// directory get the same task, whatever else they hold.
pub proof fn law_unpacking_depends_on_the_archive_alone(
    one: PrepView,
    other: PrepView,
    data: Seq<u8>,
)
    requires
        one.stage == Stage::ReadingArchive,
        other.stage == Stage::ReadingArchive,
        one.plan.backup_dir == other.plan.backup_dir,
    ensures
        one.task(FindingView::ArchiveRead { data }) == other.task(
            FindingView::ArchiveRead { data },
        ),
        one.step(FindingView::ArchiveRead { data }).stage == other.step(
            FindingView::ArchiveRead { data },
        ).stage,
{
}

} // verus!
