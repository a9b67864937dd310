//! The restore plan and the tally of a replay.

use vstd::prelude::*;
use crate::extract::{Extraction, TableDumpFileView};
use crate::text::{copy_text, copy_texts};

verus! {

/// What a run restores: the target database, the directory of the backup,
/// the table dump files in the order of their replay, how many table dumps
/// the exclusion set left out, and the preset that the set came from.
#[derive(Debug, Clone, PartialEq, Eq)]
pub struct RestorePlan {
    pub target_db: String,
    pub backup_dir: String,
    pub files: Vec<String>,
    pub skipped: usize,
    pub preset_name: Option<String>,
}

/// A `RestorePlan` as plain values.
pub struct PlanView {
    pub target_db: Seq<char>,
    pub backup_dir: Seq<char>,
    pub files: Seq<Seq<char>>,
    pub skipped: nat,
    pub preset_name: Option<Seq<char>>,
}

impl View for RestorePlan {
    type V = PlanView;

    open spec fn view(&self) -> PlanView {
        PlanView {
            target_db: self.target_db@,
            backup_dir: self.backup_dir@,
            files: self.files.deep_view(),
            skipped: self.skipped as nat,
            preset_name: self.preset_name.deep_view(),
        }
    }
}

/// The tally of a replay.
#[derive(Debug, Clone, Copy, PartialEq, Eq, Structural)]
pub struct RestoreStats {
    pub restored: usize,
    pub failed: usize,
}

/// The paths of dump files, in their order.
pub open spec fn paths_of(files: Seq<TableDumpFileView>) -> Seq<Seq<char>> {
    files.map_values(|f: TableDumpFileView| f.path)
}

impl RestorePlan {
    /// A plan with the same contents.
    pub fn duplicate(&self) -> (copy: RestorePlan)
        ensures
            copy@ == self@,
    {
        RestorePlan {
            target_db: self.target_db.clone(),
            backup_dir: self.backup_dir.clone(),
            files: copy_texts(&self.files),
            skipped: self.skipped,
            preset_name: copy_text(&self.preset_name),
        }
    }

    /// The plan of a run: the files that the extraction wrote, in its order,
    /// and its count of skipped tables.
    pub fn new(
        target_db: String,
        backup_dir: String,
        extraction: &Extraction,
        preset_name: Option<String>,
    ) -> (plan: RestorePlan)
        ensures
            plan@ == (PlanView {
                target_db: target_db@,
                backup_dir: backup_dir@,
                files: paths_of(extraction.files.deep_view()),
                skipped: extraction.skipped as nat,
                preset_name: preset_name.deep_view(),
            }),
    {
        let mut files: Vec<String> = Vec::new();
        let mut i: usize = 0;
        while i < extraction.files.len()
            invariant
                i <= extraction.files.len(),
                files.len() == i,
                forall|j: int| 0 <= j < i ==> (#[trigger] files[j])@ == extraction.files[j].path@,
            decreases extraction.files.len() - i,
        {
            files.push(extraction.files[i].path.clone());
            i = i + 1;
        }
        assert(files.deep_view() =~= paths_of(extraction.files.deep_view()));
        RestorePlan { target_db, backup_dir, files, skipped: extraction.skipped, preset_name }
    }
}

} // verus!
