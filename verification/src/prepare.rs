//! Preparing a restore: the archive normalizer, the exclusion resolver and
//! the table extractor in their order, as a machine that decides and never
//! acts. The caller carries out each task and reports what it found; the
//! machine answers with the next task, and in the end with the plan of the
//! restore or with the error that ended the preparation.

use vstd::prelude::*;
use crate::archive::{
    classify_backup,
    extract_zip,
    kind_of,
    normalized_dir_of,
    offending_extension,
    readable_archive,
    unpacked,
    zip_listing,
    BackupKind,
    Extracted,
    ExtractedView,
    PathKind,
};
use crate::config::RestoreConfig;
use crate::db::{test_connection, url_of, ConnectionProbe, ConnectionSettings, SettingsView};
use crate::error::{ErrorView, RestoreError};
use crate::extract::{
    all_decompress,
    dump_files_of,
    extract_backup,
    first_damaged,
    gunzip_text,
    kept_dumps,
    skipped_dumps,
    BackupEntry,
    BackupEntryView,
    TableDumpFile,
    TableDumpFileView,
};
use crate::plan::{paths_of, PlanView, RestorePlan};
use crate::preset::{exclusions_of, resolve_exclusions};
use crate::text::{copy_text, copy_texts};

verus! {

/// What the operator asks for, and what the connection is made with.
#[derive(Debug, Clone, PartialEq, Eq)]
pub struct RestoreRequest {
    pub target_db: String,
    pub backup: String,
    pub preset: Option<String>,
    pub settings: ConnectionSettings,
}

/// A `RestoreRequest` as plain values.
pub struct RequestView {
    pub target_db: Seq<char>,
    pub backup: Seq<char>,
    pub preset: Option<Seq<char>>,
    pub settings: SettingsView,
}

impl View for RestoreRequest {
    type V = RequestView;

    open spec fn view(&self) -> RequestView {
        RequestView {
            target_db: self.target_db@,
            backup: self.backup@,
            preset: self.preset.deep_view(),
            settings: self.settings@,
        }
    }
}

/// Where a preparation stands.
#[derive(Debug, Clone, Copy, PartialEq, Eq, Structural)]
pub enum Stage {
    /// The connection to the server is checked.
    Probing,
    /// The backup is looked at: what stands at its path?
    Inspecting,
    /// The preset store is read, to resolve the preset asked for.
    Resolving,
    /// The archive is read.
    ReadingArchive,
    /// The entries of the archive are written to the backup directory.
    Unpacking,
    /// The backup directory is listed and its table dumps are read.
    Listing,
    /// The decompressed table dumps are written.
    Writing,
    /// The plan is made: the preparation ends here.
    Ready,
    /// An error ended the preparation.
    Failed,
}

/// What the caller reports back.
#[derive(Debug, PartialEq, Eq)]
pub enum Finding {
    /// The server answered the check.
    Probed,
    /// What stands at the path of the backup.
    Inspected { found: PathKind },
    /// The preset store.
    Presets { store: RestoreConfig },
    /// The bytes of the archive.
    ArchiveRead { data: Vec<u8> },
    /// The entries of the archive are on disk.
    Unpacked,
    /// The files of the backup directory, in the order it lists them, each
    /// with its bytes where the task asked for them.
    Listed { entries: Vec<BackupEntry> },
    /// The decompressed table dumps are on disk.
    Written,
}

/// A `Finding` as plain values.
pub enum FindingView {
    Probed,
    Inspected { found: PathKind },
    Presets { store: Map<Seq<char>, Seq<Seq<char>>> },
    ArchiveRead { data: Seq<u8> },
    Unpacked,
    Listed { entries: Seq<BackupEntryView> },
    Written,
}

impl View for Finding {
    type V = FindingView;

    open spec fn view(&self) -> FindingView {
        match self {
            Finding::Probed => FindingView::Probed,
            Finding::Inspected { found } => FindingView::Inspected { found: *found },
            Finding::Presets { store } => FindingView::Presets { store: store@ },
            Finding::ArchiveRead { data } => FindingView::ArchiveRead { data: data@ },
            Finding::Unpacked => FindingView::Unpacked,
            Finding::Listed { entries } => FindingView::Listed { entries: entries.deep_view() },
            Finding::Written => FindingView::Written,
        }
    }
}

/// What the caller is to do next.
#[derive(Debug, PartialEq, Eq)]
pub enum Task {
    /// Connect and send the statement of the probe; report `Probed`.
    ProbeConnection { probe: ConnectionProbe },
    /// Find out what stands at the path; report `Inspected`.
    InspectBackup { path: String },
    /// Read the preset store; report `Presets`.
    LoadPresets,
    /// Read the archive at the path; report `ArchiveRead`.
    ReadArchive { path: String },
    /// Put the items on disk below the directory; report `Unpacked`.
    Unpack { dir: String, items: Vec<Extracted> },
    /// List the directory, and read each file that is the dump of a table
    /// outside the exclusion set; report `Listed`.
    ListBackup { dir: String, exclude: Vec<String> },
    /// Write each dump file to its path; report `Written`.
    WriteDumps { files: Vec<TableDumpFile> },
    /// The preparation is done: start the restore with this plan.
    Restore { plan: RestorePlan },
    /// The preparation failed with this error.
    Fail { error: RestoreError },
    /// Nothing: the finding was not called for.
    Nothing,
}

/// A `Task` as plain values.
pub enum TaskView {
    ProbeConnection { url: Seq<char>, statement: Seq<char> },
    InspectBackup { path: Seq<char> },
    LoadPresets,
    ReadArchive { path: Seq<char> },
    Unpack { dir: Seq<char>, items: Seq<ExtractedView> },
    ListBackup { dir: Seq<char>, exclude: Seq<Seq<char>> },
    WriteDumps { files: Seq<TableDumpFileView> },
    Restore { plan: PlanView },
    Fail { error: ErrorView },
    Nothing,
}

impl View for Task {
    type V = TaskView;

    open spec fn view(&self) -> TaskView {
        match self {
            Task::ProbeConnection { probe } => TaskView::ProbeConnection {
                url: probe.url@,
                statement: probe.statement@,
            },
            Task::InspectBackup { path } => TaskView::InspectBackup { path: path@ },
            Task::LoadPresets => TaskView::LoadPresets,
            Task::ReadArchive { path } => TaskView::ReadArchive { path: path@ },
            Task::Unpack { dir, items } => TaskView::Unpack {
                dir: dir@,
                items: items.deep_view(),
            },
            Task::ListBackup { dir, exclude } => TaskView::ListBackup {
                dir: dir@,
                exclude: exclude.deep_view(),
            },
            Task::WriteDumps { files } => TaskView::WriteDumps { files: files.deep_view() },
            Task::Restore { plan } => TaskView::Restore { plan: plan@ },
            Task::Fail { error } => TaskView::Fail { error: error@ },
            Task::Nothing => TaskView::Nothing,
        }
    }
}

/// The index of the first of `entries` that does not decompress.
pub open spec fn first_damaged_at(entries: Seq<BackupEntryView>) -> int {
    choose|k: int| first_damaged(entries, k)
}

/// A preparation as plain values: the backup and the preset asked for, the
/// stage, the kind of the backup, the exclusion set, and the plan as far as
/// it is made.
pub struct PrepView {
    pub backup: Seq<char>,
    pub preset: Option<Seq<char>>,
    pub stage: Stage,
    pub kind: BackupKind,
    pub exclude: Seq<Seq<char>>,
    pub plan: PlanView,
}

impl PrepView {
    /// The preparation at another stage.
    pub open spec fn at(self, stage: Stage) -> PrepView {
        PrepView { stage, ..self }
    }

    /// The preparation once the exclusion set is resolved: an archive is
    /// read next, a directory is listed.
    pub open spec fn resolved(self, exclude: Seq<Seq<char>>, echo: Option<Seq<char>>) -> PrepView {
        PrepView {
            stage: if self.kind == BackupKind::ZipArchive {
                Stage::ReadingArchive
            } else {
                Stage::Listing
            },
            exclude,
            plan: PlanView { preset_name: echo, ..self.plan },
            ..self
        }
    }

    /// The task that reads the archive or lists the directory, by the stage.
    pub open spec fn extraction_task(self) -> TaskView {
        match self.stage {
            Stage::ReadingArchive => TaskView::ReadArchive { path: self.backup },
            Stage::Listing => TaskView::ListBackup {
                dir: self.plan.backup_dir,
                exclude: self.exclude,
            },
            _ => TaskView::Nothing,
        }
    }

    /// The preparation after the caller reports `finding`. A finding that
    /// the stage does not call for changes nothing.
    pub open spec fn step(self, finding: FindingView) -> PrepView {
        match (self.stage, finding) {
            (Stage::Probing, FindingView::Probed) => self.at(Stage::Inspecting),
            (Stage::Inspecting, FindingView::Inspected { found }) => match kind_of(
                self.backup,
                found,
            ) {
                Some(kind) => {
                    let seen = PrepView {
                        kind,
                        plan: PlanView {
                            backup_dir: normalized_dir_of(self.backup, kind),
                            ..self.plan
                        },
                        ..self
                    };
                    if self.preset is Some {
                        seen.at(Stage::Resolving)
                    } else {
                        seen.resolved(Seq::empty(), None)
                    }
                },
                None => self.at(Stage::Failed),
            },
            (Stage::Resolving, FindingView::Presets { store }) => match exclusions_of(
                store,
                self.preset,
            ) {
                Some((exclude, echo)) => self.resolved(exclude, echo),
                None => self.at(Stage::Failed),
            },
            (Stage::ReadingArchive, FindingView::ArchiveRead { data }) => if readable_archive(
                data,
            ) {
                self.at(Stage::Unpacking)
            } else {
                self.at(Stage::Failed)
            },
            (Stage::Unpacking, FindingView::Unpacked) => self.at(Stage::Listing),
            (Stage::Listing, FindingView::Listed { entries }) => {
                let kept = kept_dumps(entries, self.exclude);
                if all_decompress(kept) {
                    PrepView {
                        stage: Stage::Writing,
                        plan: PlanView {
                            files: paths_of(dump_files_of(kept)),
                            skipped: skipped_dumps(entries, self.exclude).len(),
                            ..self.plan
                        },
                        ..self
                    }
                } else {
                    self.at(Stage::Failed)
                }
            },
            (Stage::Writing, FindingView::Written) => self.at(Stage::Ready),
            _ => self,
        }
    }

    /// The task that the caller gets when it reports `finding`.
    pub open spec fn task(self, finding: FindingView) -> TaskView {
        match (self.stage, finding) {
            (Stage::Probing, FindingView::Probed) => TaskView::InspectBackup {
                path: self.backup,
            },
            (Stage::Inspecting, FindingView::Inspected { found }) => match kind_of(
                self.backup,
                found,
            ) {
                Some(_) => if self.preset is Some {
                    TaskView::LoadPresets
                } else {
                    self.step(finding).extraction_task()
                },
                None => TaskView::Fail {
                    error: ErrorView::UnsupportedFormat {
                        extension: offending_extension(self.backup),
                    },
                },
            },
            (Stage::Resolving, FindingView::Presets { store }) => match exclusions_of(
                store,
                self.preset,
            ) {
                Some(_) => self.step(finding).extraction_task(),
                None => TaskView::Fail {
                    error: ErrorView::PresetNotFound { name: self.preset->0 },
                },
            },
            (Stage::ReadingArchive, FindingView::ArchiveRead { data }) => if readable_archive(
                data,
            ) {
                TaskView::Unpack {
                    dir: self.plan.backup_dir,
                    items: unpacked(zip_listing(data)->0),
                }
            } else {
                TaskView::Fail { error: ErrorView::CorruptArchive }
            },
            (Stage::Unpacking, FindingView::Unpacked) => self.step(finding).extraction_task(),
            (Stage::Listing, FindingView::Listed { entries }) => {
                let kept = kept_dumps(entries, self.exclude);
                if all_decompress(kept) {
                    TaskView::WriteDumps { files: dump_files_of(kept) }
                } else {
                    TaskView::Fail {
                        error: ErrorView::CorruptDump { file: kept[first_damaged_at(kept)].path },
                    }
                }
            },
            (Stage::Writing, FindingView::Written) => TaskView::Restore { plan: self.plan },
            _ => TaskView::Nothing,
        }
    }
}

/// The preparation as it begins: nothing is known of the backup yet.
pub open spec fn begun(request: RequestView) -> PrepView {
    PrepView {
        backup: request.backup,
        preset: request.preset,
        stage: Stage::Probing,
        kind: BackupKind::Directory,
        exclude: Seq::empty(),
        plan: PlanView {
            target_db: request.target_db,
            backup_dir: Seq::empty(),
            files: Seq::empty(),
            skipped: 0,
            preset_name: None,
        },
    }
}

/// Only one of the entries can be the first that does not decompress.
pub proof fn lemma_first_damaged(entries: Seq<BackupEntryView>, k: int)
    requires
        first_damaged(entries, k),
    ensures
        first_damaged_at(entries) == k,
        !all_decompress(entries),
{
    let c = first_damaged_at(entries);
    assert(first_damaged(entries, c));
    if c < k {
        assert(gunzip_text(entries[c].data) is Some);
    }
    if k < c {
        assert(gunzip_text(entries[k].data) is Some);
    }
}

/// The preparation of a restore.
#[derive(Debug)]
pub struct Preparation {
    backup: String,
    preset: Option<String>,
    stage: Stage,
    kind: BackupKind,
    exclude: Vec<String>,
    plan: RestorePlan,
}

impl View for Preparation {
    type V = PrepView;

    closed spec fn view(&self) -> PrepView {
        PrepView {
            backup: self.backup@,
            preset: self.preset.deep_view(),
            stage: self.stage,
            kind: self.kind,
            exclude: self.exclude.deep_view(),
            plan: self.plan@,
        }
    }
}

impl Preparation {
    /// The stage of the preparation.
    pub fn stage(&self) -> (stage: Stage)
        ensures
            stage == self@.stage,
    {
        self.stage
    }

    /// Whether the preparation has ended, with a plan or with an error.
    pub fn is_finished(&self) -> (b: bool)
        ensures
            b == (self@.stage == Stage::Ready || self@.stage == Stage::Failed),
    {
        self.stage == Stage::Ready || self.stage == Stage::Failed
    }

    /// The task that reads the archive or lists the directory, by the stage.
    fn extraction_task(&self) -> (task: Task)
        ensures
            task@ == self@.extraction_task(),
    {
        match self.stage {
            Stage::ReadingArchive => Task::ReadArchive { path: self.backup.clone() },
            Stage::Listing => Task::ListBackup {
                dir: self.plan.backup_dir.clone(),
                exclude: copy_texts(&self.exclude),
            },
            _ => Task::Nothing,
        }
    }

    /// The preparation once the exclusion set is resolved.
    fn resolve(self, exclude: Vec<String>, echo: Option<String>) -> (after: Preparation)
        ensures
            after@ == self@.resolved(exclude.deep_view(), echo.deep_view()),
    {
        let stage = if self.kind == BackupKind::ZipArchive {
            Stage::ReadingArchive
        } else {
            Stage::Listing
        };
        Preparation {
            backup: self.backup,
            preset: self.preset,
            stage,
            kind: self.kind,
            exclude,
            plan: RestorePlan {
                target_db: self.plan.target_db,
                backup_dir: self.plan.backup_dir,
                files: self.plan.files,
                skipped: self.plan.skipped,
                preset_name: echo,
            },
        }
    }

    /// The preparation at another stage.
    fn enter(self, stage: Stage) -> (after: Preparation)
        ensures
            after@ == self@.at(stage),
    {
        Preparation {
            backup: self.backup,
            preset: self.preset,
            stage,
            kind: self.kind,
            exclude: self.exclude,
            plan: self.plan,
        }
    }
}

/// Begins the preparation of a restore. The first task is the check of the
/// connection.
pub fn begin(request: RestoreRequest) -> (r: (Preparation, Task))
    ensures
        r.0@ == begun(request@),
        r.1@ == (TaskView::ProbeConnection {
            url: url_of(request.settings@),
            statement: "SELECT 1"@,
        }),
{
    let probe = test_connection(&request.settings);
    let exclude: Vec<String> = Vec::new();
    let files: Vec<String> = Vec::new();
    assert(exclude.deep_view() =~= Seq::<Seq<char>>::empty());
    assert(files.deep_view() =~= Seq::<Seq<char>>::empty());
    let prep = Preparation {
        backup: request.backup,
        preset: request.preset,
        stage: Stage::Probing,
        kind: BackupKind::Directory,
        exclude,
        plan: RestorePlan {
            target_db: request.target_db,
            backup_dir: String::new(),
            files,
            skipped: 0,
            preset_name: None,
        },
    };
    (prep, Task::ProbeConnection { probe })
}

/// Takes a preparation one step further: given what the caller found, the
/// preparation moves to its next stage and says what to do next. The two
/// errors of the input, a backup of no accepted kind and a preset that the
/// store does not hold, are found before anything is read or unpacked. A
/// finding that the stage did not call for changes nothing.
pub fn advance(prep: Preparation, finding: Finding) -> (r: (Preparation, Task))
    ensures
        r.0@ == prep@.step(finding@),
        r.1@ == prep@.task(finding@),
{
    match prep.stage {
        Stage::Probing => match finding {
            Finding::Probed => {
                let task = Task::InspectBackup { path: prep.backup.clone() };
                (prep.enter(Stage::Inspecting), task)
            },
            _ => (prep, Task::Nothing),
        },
        Stage::Inspecting => match finding {
            Finding::Inspected { found } => match classify_backup(prep.backup.as_str(), found) {
                Ok(source) => {
                    let wants_preset = prep.preset.is_some();
                    let seen = Preparation {
                        backup: prep.backup,
                        preset: prep.preset,
                        stage: prep.stage,
                        kind: source.kind,
                        exclude: prep.exclude,
                        plan: RestorePlan {
                            target_db: prep.plan.target_db,
                            backup_dir: source.normalized_dir(),
                            files: prep.plan.files,
                            skipped: prep.plan.skipped,
                            preset_name: prep.plan.preset_name,
                        },
                    };
                    if wants_preset {
                        (seen.enter(Stage::Resolving), Task::LoadPresets)
                    } else {
                        let exclude: Vec<String> = Vec::new();
                        assert(exclude.deep_view() =~= Seq::<Seq<char>>::empty());
                        let after = seen.resolve(exclude, None);
                        let task = after.extraction_task();
                        (after, task)
                    }
                },
                Err(error) => (prep.enter(Stage::Failed), Task::Fail { error }),
            },
            _ => (prep, Task::Nothing),
        },
        Stage::Resolving => match finding {
            Finding::Presets { store } => match resolve_exclusions(
                &store,
                copy_text(&prep.preset),
            ) {
                Ok(found) => {
                    let after = prep.resolve(found.0, found.1);
                    let task = after.extraction_task();
                    (after, task)
                },
                Err(error) => (prep.enter(Stage::Failed), Task::Fail { error }),
            },
            _ => (prep, Task::Nothing),
        },
        Stage::ReadingArchive => match finding {
            Finding::ArchiveRead { data } => match extract_zip(data) {
                Ok(items) => {
                    let task = Task::Unpack { dir: prep.plan.backup_dir.clone(), items };
                    (prep.enter(Stage::Unpacking), task)
                },
                Err(error) => (prep.enter(Stage::Failed), Task::Fail { error }),
            },
            _ => (prep, Task::Nothing),
        },
        Stage::Unpacking => match finding {
            Finding::Unpacked => {
                let after = prep.enter(Stage::Listing);
                let task = after.extraction_task();
                (after, task)
            },
            _ => (prep, Task::Nothing),
        },
        Stage::Listing => match finding {
            Finding::Listed { entries } => match extract_backup(&entries, &prep.exclude) {
                Ok(extraction) => {
                    let after = Preparation {
                        backup: prep.backup,
                        preset: prep.preset,
                        stage: Stage::Writing,
                        kind: prep.kind,
                        exclude: prep.exclude,
                        plan: RestorePlan::new(
                            prep.plan.target_db,
                            prep.plan.backup_dir,
                            &extraction,
                            prep.plan.preset_name,
                        ),
                    };
                    (after, Task::WriteDumps { files: extraction.files })
                },
                Err(error) => {
                    proof {
                        let kept = kept_dumps(entries.deep_view(), prep.exclude.deep_view());
                        let k = choose|k: int|
                            first_damaged(kept, k) && error@ == (ErrorView::CorruptDump {
                                file: kept[k].path,
                            });
                        lemma_first_damaged(kept, k);
                    }
                    (prep.enter(Stage::Failed), Task::Fail { error })
                },
            },
            _ => (prep, Task::Nothing),
        },
        Stage::Writing => match finding {
            Finding::Written => {
                let task = Task::Restore { plan: prep.plan.duplicate() };
                (prep.enter(Stage::Ready), task)
            },
            _ => (prep, Task::Nothing),
        },
        _ => (prep, Task::Nothing),
    }
}

} // verus!
