//! The restore gate and the replay executor, as one machine that decides and
//! never acts. The caller shows the lines of each step, carries out its
//! action and reports back what happened; the machine answers with the next
//! step.

use vstd::prelude::*;
use crate::db::{
    create_statement,
    create_statement_of,
    exists_query,
    exists_query_of,
    use_statement,
    use_statement_of,
};
use crate::plan::{PlanView, RestorePlan, RestoreStats};
use crate::report::{
    aborted_notice,
    dry_run_notice,
    exists_notice,
    final_summary,
    final_summary_of,
    overwrite_prompt,
    plan_summary,
    plan_summary_of,
    proceed_prompt,
};
use crate::text::{concat3, same_text, trim, trimmed};

verus! {

/// Where a run stands.
#[derive(Debug, Clone, Copy, PartialEq, Eq, Structural)]
pub enum Phase {
    /// The summary was shown to no effect: a dry run ends here.
    DryRunExit,
    /// The operator is asked whether to proceed.
    AwaitingConfirmation,
    /// The operator declined to proceed: the run ends here.
    Aborted,
    /// The run may proceed; the server is asked whether the target database
    /// exists.
    Confirmed,
    /// The target database exists; the operator is asked whether to restore
    /// into it.
    AwaitingOverwrite,
    /// The operator declined to restore into the database that exists: the
    /// run ends here.
    Declined,
    /// The database is created unless it exists.
    Creating,
    /// The database is selected.
    Selecting,
    /// The table dumps are replayed, one after the other.
    Replaying,
    /// Every table dump was replayed: the run ends here.
    Completed,
}

/// What the caller reports back.
#[derive(Debug, Clone, PartialEq, Eq)]
pub enum Event {
    /// The operator answered a question with this line.
    Answer { text: String },
    /// The server said whether the target database exists.
    Exists { found: bool },
    /// The statement was executed.
    Executed,
    /// The statements of the table dump were executed.
    Replayed,
    /// The server refused the statements of the table dump.
    ReplayFailed,
}

/// An `Event` as plain values.
pub enum EventView {
    Answer { text: Seq<char> },
    Exists { found: bool },
    Executed,
    Replayed,
    ReplayFailed,
}

impl View for Event {
    type V = EventView;

    open spec fn view(&self) -> EventView {
        match self {
            Event::Answer { text } => EventView::Answer { text: text@ },
            Event::Exists { found } => EventView::Exists { found: *found },
            Event::Executed => EventView::Executed,
            Event::Replayed => EventView::Replayed,
            Event::ReplayFailed => EventView::ReplayFailed,
        }
    }
}

/// What the caller is to do next.
#[derive(Debug, Clone, PartialEq, Eq)]
pub enum Action {
    /// Put the question to the operator and report the answer.
    Ask { prompt: String },
    /// Send the query and report whether it found the database.
    CheckDatabase { query: String },
    /// Send the statement and report that it was executed.
    Execute { statement: String },
    /// Send the statements that the file holds and report how that went.
    Replay { file: String },
    /// Nothing: the run has ended.
    Finish,
}

/// An `Action` as plain values.
pub enum ActionView {
    Ask { prompt: Seq<char> },
    CheckDatabase { query: Seq<char> },
    Execute { statement: Seq<char> },
    Replay { file: Seq<char> },
    Finish,
}

impl View for Action {
    type V = ActionView;

    open spec fn view(&self) -> ActionView {
        match self {
            Action::Ask { prompt } => ActionView::Ask { prompt: prompt@ },
            Action::CheckDatabase { query } => ActionView::CheckDatabase { query: query@ },
            Action::Execute { statement } => ActionView::Execute { statement: statement@ },
            Action::Replay { file } => ActionView::Replay { file: file@ },
            Action::Finish => ActionView::Finish,
        }
    }
}

/// One step of a run: the lines to show, then the action to carry out.
#[derive(Debug, Clone, PartialEq, Eq)]
pub struct Step {
    pub lines: Vec<String>,
    pub action: Action,
}

/// Whether an answer is the exact affirmative: `yes`, with nothing but
/// white space around it.
pub open spec fn is_yes(answer: Seq<char>) -> bool {
    trimmed(answer) == "yes"@
}

/// A run as plain values: its plan, its phase, the index of the next table
/// dump to replay, and the tally so far.
pub struct RunView {
    pub plan: PlanView,
    pub phase: Phase,
    pub next: nat,
    pub restored: nat,
    pub failed: nat,
}

impl RunView {
    /// What holds of every run: each replayed dump was counted once, as
    /// restored or as failed, and no dump is replayed outside the replay.
    pub open spec fn inv(self) -> bool {
        &&& self.restored + self.failed == self.next
        &&& self.next <= self.plan.files.len()
        &&& self.phase == Phase::Replaying ==> self.next < self.plan.files.len()
        &&& self.phase == Phase::Completed ==> self.next == self.plan.files.len()
        &&& self.phase != Phase::Replaying && self.phase != Phase::Completed ==> self.next == 0
    }

    /// Whether the run has ended.
    pub open spec fn finished(self) -> bool {
        ||| self.phase == Phase::DryRunExit
        ||| self.phase == Phase::Aborted
        ||| self.phase == Phase::Declined
        ||| self.phase == Phase::Completed
    }

    /// The action that the run waits for.
    pub open spec fn pending(self) -> ActionView {
        match self.phase {
            Phase::AwaitingConfirmation => ActionView::Ask { prompt: proceed_prompt() },
            Phase::Confirmed => ActionView::CheckDatabase {
                query: exists_query_of(self.plan.target_db),
            },
            Phase::AwaitingOverwrite => ActionView::Ask { prompt: overwrite_prompt() },
            Phase::Creating => ActionView::Execute {
                statement: create_statement_of(self.plan.target_db),
            },
            Phase::Selecting => ActionView::Execute {
                statement: use_statement_of(self.plan.target_db),
            },
            Phase::Replaying => ActionView::Replay { file: self.plan.files[self.next as int] },
            _ => ActionView::Finish,
        }
    }

    /// The run in another phase.
    pub open spec fn at(self, phase: Phase) -> RunView {
        RunView { phase, ..self }
    }

    /// The run once the dump it was replaying is counted.
    pub open spec fn counted(self, restored: bool) -> RunView {
        RunView {
            plan: self.plan,
            phase: if self.next + 1 < self.plan.files.len() {
                Phase::Replaying
            } else {
                Phase::Completed
            },
            next: self.next + 1,
            restored: if restored {
                self.restored + 1
            } else {
                self.restored
            },
            failed: if restored {
                self.failed
            } else {
                self.failed + 1
            },
        }
    }

    /// The run after the caller reports `event`. An event that the pending
    /// action does not call for changes nothing.
    pub open spec fn step(self, event: EventView) -> RunView {
        match (self.phase, event) {
            (Phase::AwaitingConfirmation, EventView::Answer { text }) => self.at(
                if is_yes(text) {
                    Phase::Confirmed
                } else {
                    Phase::Aborted
                },
            ),
            (Phase::Confirmed, EventView::Exists { found }) => self.at(
                if found {
                    Phase::AwaitingOverwrite
                } else {
                    Phase::Creating
                },
            ),
            (Phase::AwaitingOverwrite, EventView::Answer { text }) => self.at(
                if is_yes(text) {
                    Phase::Creating
                } else {
                    Phase::Declined
                },
            ),
            (Phase::Creating, EventView::Executed) => self.at(Phase::Selecting),
            (Phase::Selecting, EventView::Executed) => self.at(
                if self.plan.files.len() > 0 {
                    Phase::Replaying
                } else {
                    Phase::Completed
                },
            ),
            (Phase::Replaying, EventView::Replayed) => self.counted(true),
            (Phase::Replaying, EventView::ReplayFailed) => self.counted(false),
            _ => self,
        }
    }

    /// The summary of the run's tally.
    pub open spec fn summary(self) -> Seq<Seq<char>> {
        final_summary_of(self.restored, self.plan.skipped, self.failed, self.plan.preset_name)
    }

    /// The lines shown when the run enters its phase.
    pub open spec fn entering(self) -> Seq<Seq<char>> {
        match self.phase {
            Phase::Aborted => seq![aborted_notice()],
            Phase::AwaitingOverwrite => seq![exists_notice(self.plan.target_db)],
            Phase::Declined => seq![aborted_notice()] + self.summary(),
            Phase::Completed => self.summary(),
            _ => Seq::empty(),
        }
    }

    /// The lines shown when the caller reports `event`.
    pub open spec fn shown(self, event: EventView) -> Seq<Seq<char>> {
        if self.step(event).phase == self.phase {
            Seq::empty()
        } else {
            self.step(event).entering()
        }
    }
}

/// The run as it starts: ended at once by a dry run, confirmed at once where
/// the operator said yes in advance, and waiting for the answer otherwise.
pub open spec fn started(plan: PlanView, dry_run: bool, yes: bool) -> RunView {
    RunView {
        plan,
        phase: if dry_run {
            Phase::DryRunExit
        } else if yes {
            Phase::Confirmed
        } else {
            Phase::AwaitingConfirmation
        },
        next: 0,
        restored: 0,
        failed: 0,
    }
}

/// The lines shown as the run starts: the summary of the plan, and for a dry
/// run the notice that nothing will change.
pub open spec fn opening(plan: PlanView, dry_run: bool) -> Seq<Seq<char>> {
    if dry_run {
        plan_summary_of(plan).push(dry_run_notice())
    } else {
        plan_summary_of(plan)
    }
}

/// Whether an answer is the exact affirmative.
pub fn is_affirmative(answer: &str) -> (b: bool)
    ensures
        b == is_yes(answer@),
{
    same_text(trim(answer), "yes")
}

/// A run of the restore gate and the replay executor.
#[derive(Debug)]
pub struct RestoreRun {
    plan: RestorePlan,
    phase: Phase,
    next: usize,
    restored: usize,
    failed: usize,
}

impl View for RestoreRun {
    type V = RunView;

    closed spec fn view(&self) -> RunView {
        RunView {
            plan: self.plan@,
            phase: self.phase,
            next: self.next as nat,
            restored: self.restored as nat,
            failed: self.failed as nat,
        }
    }
}

impl RestoreRun {
    #[verifier::type_invariant]
    spec fn wf(self) -> bool {
        self@.inv()
    }

    /// The phase of the run.
    pub fn phase(&self) -> (phase: Phase)
        ensures
            phase == self@.phase,
    {
        self.phase
    }

    /// Whether the run has ended.
    pub fn is_finished(&self) -> (b: bool)
        ensures
            b == self@.finished(),
    {
        self.phase == Phase::DryRunExit || self.phase == Phase::Aborted || self.phase
            == Phase::Declined || self.phase == Phase::Completed
    }

    /// The tally of the run so far.
    pub fn stats(&self) -> (stats: RestoreStats)
        ensures
            stats.restored == self@.restored,
            stats.failed == self@.failed,
            self@.inv(),
    {
        proof {
            use_type_invariant(self);
        }
        RestoreStats { restored: self.restored, failed: self.failed }
    }

    /// The plan of the run.
    pub fn plan(&self) -> (plan: &RestorePlan)
        ensures
            plan@ == self@.plan,
    {
        &self.plan
    }

    /// The action that the run waits for.
    pub fn pending_action(&self) -> (action: Action)
        ensures
            action@ == self@.pending(),
    {
        proof {
            use_type_invariant(self);
        }
        match self.phase {
            Phase::AwaitingConfirmation => Action::Ask {
                prompt: String::from_str("Proceed with restore? (yes/no): "),
            },
            Phase::Confirmed => Action::CheckDatabase {
                query: exists_query(self.plan.target_db.as_str()),
            },
            Phase::AwaitingOverwrite => Action::Ask {
                prompt: String::from_str(
                    "Do you want to restore into the existing database? (yes/no): ",
                ),
            },
            Phase::Creating => Action::Execute {
                statement: create_statement(self.plan.target_db.as_str()),
            },
            Phase::Selecting => Action::Execute {
                statement: use_statement(self.plan.target_db.as_str()),
            },
            Phase::Replaying => Action::Replay { file: self.plan.files[self.next].clone() },
            _ => Action::Finish,
        }
    }

    /// The lines shown when the run enters its phase.
    fn entering_lines(&self) -> (lines: Vec<String>)
        ensures
            lines.deep_view() == self@.entering(),
    {
        match self.phase {
            Phase::Aborted => {
                let mut lines: Vec<String> = Vec::new();
                lines.push(String::from_str("❌ Aborted by user"));
                assert(lines.deep_view() =~= seq![aborted_notice()]);
                lines
            },
            Phase::AwaitingOverwrite => {
                let mut lines: Vec<String> = Vec::new();
                lines.push(
                    concat3("⚠️ Database '", self.plan.target_db.as_str(), "' already exists!"),
                );
                assert(lines.deep_view() =~= seq![exists_notice(self@.plan.target_db)]);
                lines
            },
            Phase::Declined => {
                let mut lines: Vec<String> = Vec::new();
                lines.push(String::from_str("❌ Aborted by user"));
                let mut summary = final_summary(
                    self.restored,
                    self.plan.skipped,
                    self.failed,
                    &self.plan.preset_name,
                );
                let ghost tail = summary.deep_view();
                lines.append(&mut summary);
                assert(lines.deep_view() =~= seq![aborted_notice()] + tail);
                lines
            },
            Phase::Completed => final_summary(
                self.restored,
                self.plan.skipped,
                self.failed,
                &self.plan.preset_name,
            ),
            _ => {
                let lines: Vec<String> = Vec::new();
                assert(lines.deep_view() =~= Seq::<Seq<char>>::empty());
                lines
            },
        }
    }
}

/// Starts a run. The first step shows the summary of the plan. What
/// follows depends on the two flags alone, so the run leaves this first
/// state at once: as a dry run it has ended, with yes given in advance it is
/// confirmed, and otherwise it waits for the answer of the operator.
pub fn start(plan: RestorePlan, dry_run: bool, yes: bool) -> (r: (RestoreRun, Step))
    ensures
        r.0@ == started(plan@, dry_run, yes),
        r.1.lines.deep_view() == opening(plan@, dry_run),
        r.1.action@ == started(plan@, dry_run, yes).pending(),
{
    let mut lines = plan_summary(&plan);
    if dry_run {
        let ghost head = lines.deep_view();
        lines.push(String::from_str("⚠️ Dry run enabled — no changes will be made"));
        assert(lines.deep_view() =~= head.push(dry_run_notice()));
    }
    let phase = if dry_run {
        Phase::DryRunExit
    } else if yes {
        Phase::Confirmed
    } else {
        Phase::AwaitingConfirmation
    };
    let run = RestoreRun { plan, phase, next: 0, restored: 0, failed: 0 };
    let action = run.pending_action();
    (run, Step { lines, action })
}

/// Counts the table dump that was replayed, as restored or as failed, and
/// moves on to the next one or to the end of the run.
fn tally(run: RestoreRun, restored: bool) -> (after: RestoreRun)
    requires
        run@.phase == Phase::Replaying,
    ensures
        after@ == run@.counted(restored),
{
    proof {
        use_type_invariant(&run);
        assert(run.plan@.files.len() == run.plan.files.len());
    }
    let next: usize = run.next + 1;
    let phase = if next < run.plan.files.len() {
        Phase::Replaying
    } else {
        Phase::Completed
    };
    if restored {
        RestoreRun {
            plan: run.plan,
            phase,
            next,
            restored: run.restored + 1,
            failed: run.failed,
        }
    } else {
        RestoreRun {
            plan: run.plan,
            phase,
            next,
            restored: run.restored,
            failed: run.failed + 1,
        }
    }
}

/// The run in another phase that replays nothing.
fn enter(run: RestoreRun, phase: Phase) -> (after: RestoreRun)
    requires
        run@.phase != Phase::Replaying,
        run@.phase != Phase::Completed,
        phase != Phase::Replaying || run@.plan.files.len() > 0,
        phase != Phase::Completed || run@.plan.files.len() == 0,
    ensures
        after@ == run@.at(phase),
{
    proof {
        use_type_invariant(&run);
    }
    RestoreRun {
        plan: run.plan,
        phase,
        next: run.next,
        restored: run.restored,
        failed: run.failed,
    }
}

/// Takes a run one step further: given what the caller reports, the run
/// moves to its next phase, and the step says what to show and what to do
/// next. An event that the pending action did not call for changes nothing
/// and shows nothing.
pub fn handle(run: RestoreRun, event: Event) -> (r: (RestoreRun, Step))
    ensures
        r.0@ == run@.step(event@),
        r.1.lines.deep_view() == run@.shown(event@),
        r.1.action@ == run@.step(event@).pending(),
{
    let before = run.phase;
    let after = match before {
        Phase::AwaitingConfirmation => match event {
            Event::Answer { text } => if is_affirmative(text.as_str()) {
                enter(run, Phase::Confirmed)
            } else {
                enter(run, Phase::Aborted)
            },
            _ => run,
        },
        Phase::Confirmed => match event {
            Event::Exists { found } => if found {
                enter(run, Phase::AwaitingOverwrite)
            } else {
                enter(run, Phase::Creating)
            },
            _ => run,
        },
        Phase::AwaitingOverwrite => match event {
            Event::Answer { text } => if is_affirmative(text.as_str()) {
                enter(run, Phase::Creating)
            } else {
                enter(run, Phase::Declined)
            },
            _ => run,
        },
        Phase::Creating => match event {
            Event::Executed => enter(run, Phase::Selecting),
            _ => run,
        },
        Phase::Selecting => match event {
            Event::Executed => if run.plan.files.len() > 0 {
                enter(run, Phase::Replaying)
            } else {
                enter(run, Phase::Completed)
            },
            _ => run,
        },
        Phase::Replaying => match event {
            Event::Replayed => tally(run, true),
            Event::ReplayFailed => tally(run, false),
            _ => run,
        },
        _ => run,
    };
    let lines = if after.phase == before {
        let lines: Vec<String> = Vec::new();
        assert(lines.deep_view() =~= Seq::<Seq<char>>::empty());
        lines
    } else {
        after.entering_lines()
    };
    let action = after.pending_action();
    (after, Step { lines, action })
}

} // verus!
