//! The synchronisation sequencer: the decisions of one run, as a state
//! machine. The caller performs the action that the state asks for and hands
//! back a report; the sequencer decides whether the run goes on or ends.
//!
//! A run takes five steps in a fixed order: update from the remote, write the
//! entry's file, stage, commit, publish. The first step that fails ends the
//! run with its diagnostic; nothing is retried and nothing is rolled back.

use crate::command::{
    command_line, command_line_text, step_args, CommandOutcome, CommandOutcomeView, GitStep,
};
use crate::diary::{
    commit_message_text, file_text, is_date, target_directory_text, target_path_text, Diary,
    DiaryView,
};
use vstd::prelude::*;
use vstd::string::*;

verus! {

/// Why a run ended without success.
#[derive(Debug, PartialEq, Eq)]
pub enum SyncError {
    /// No repository location is configured.
    ConfigurationMissing,
    /// The entry's date does not have the shape `YYYY-MM-DD`.
    Validation,
    /// The entry's file, or a directory above it, could not be written.
    Filesystem { reason: String },
    /// The tool could not be launched for a step.
    ExternalToolSpawn { step: GitStep, reason: String },
    /// The tool was launched for a step, and waiting for it to end failed.
    ExternalToolWait { step: GitStep, reason: String },
    /// The tool ran for a step and exited with failure.
    ExternalToolExecution { step: GitStep, command: String, stderr: Vec<u8> },
}

pub enum SyncErrorView {
    ConfigurationMissing,
    Validation,
    Filesystem { reason: Seq<char> },
    ExternalToolSpawn { step: GitStep, reason: Seq<char> },
    ExternalToolWait { step: GitStep, reason: Seq<char> },
    ExternalToolExecution { step: GitStep, command: Seq<char>, stderr: Seq<u8> },
}

impl View for SyncError {
    type V = SyncErrorView;

    open spec fn view(&self) -> SyncErrorView {
        match self {
            SyncError::ConfigurationMissing => SyncErrorView::ConfigurationMissing,
            SyncError::Validation => SyncErrorView::Validation,
            SyncError::Filesystem { reason } => SyncErrorView::Filesystem { reason: reason@ },
            SyncError::ExternalToolSpawn { step, reason } => SyncErrorView::ExternalToolSpawn {
                step: *step,
                reason: reason@,
            },
            SyncError::ExternalToolWait { step, reason } => SyncErrorView::ExternalToolWait {
                step: *step,
                reason: reason@,
            },
            SyncError::ExternalToolExecution {
                step,
                command,
                stderr,
            } => SyncErrorView::ExternalToolExecution {
                step: *step,
                command: command@,
                stderr: stderr@,
            },
        }
    }
}

/// How a run ended, or `Ok` while it has not failed.
pub open spec fn outcome_view(outcome: Result<(), SyncError>) -> Result<(), SyncErrorView> {
    match outcome {
        Ok(_) => Ok(()),
        Err(e) => Err(e@),
    }
}

/// What the caller reports after it has performed an action.
#[derive(Debug, PartialEq, Eq)]
pub enum Report {
    /// The tool was launched and has exited.
    Ran(CommandOutcome),
    /// The tool could not be launched.
    SpawnFailed(String),
    /// The tool was launched, and waiting for it to end failed.
    WaitFailed(String),
    /// The file is written.
    Written,
    /// The file, or a directory above it, could not be written.
    WriteFailed(String),
}

pub enum ReportView {
    Ran(CommandOutcomeView),
    SpawnFailed(Seq<char>),
    WaitFailed(Seq<char>),
    Written,
    WriteFailed(Seq<char>),
}

impl View for Report {
    type V = ReportView;

    open spec fn view(&self) -> ReportView {
        match self {
            Report::Ran(outcome) => ReportView::Ran(outcome@),
            Report::SpawnFailed(reason) => ReportView::SpawnFailed(reason@),
            Report::WaitFailed(reason) => ReportView::WaitFailed(reason@),
            Report::Written => ReportView::Written,
            Report::WriteFailed(reason) => ReportView::WriteFailed(reason@),
        }
    }
}

/// What the caller is to do next.
#[derive(Debug, PartialEq, Eq)]
pub enum SyncAction {
    /// Run the tool in `directory` with `args`, and report how it went.
    Run { step: GitStep, directory: String, args: Vec<String> },
    /// Create `directory` and the directories above it where they are
    /// missing, write `content` to the file at `path` in place of what it
    /// held, and report how it went.
    Write { directory: String, path: String, content: String },
    /// The run is over, with this result.
    Finish(Result<(), SyncError>),
}

pub enum SyncActionView {
    Run { step: GitStep, directory: Seq<char>, args: Seq<Seq<char>> },
    Write { directory: Seq<char>, path: Seq<char>, content: Seq<char> },
    Finish(Result<(), SyncErrorView>),
}

impl View for SyncAction {
    type V = SyncActionView;

    open spec fn view(&self) -> SyncActionView {
        match self {
            SyncAction::Run { step, directory, args } => SyncActionView::Run {
                step: *step,
                directory: directory@,
                args: args.deep_view(),
            },
            SyncAction::Write { directory, path, content } => SyncActionView::Write {
                directory: directory@,
                path: path@,
                content: content@,
            },
            SyncAction::Finish(outcome) => SyncActionView::Finish(outcome_view(*outcome)),
        }
    }
}

/// Where a run stands: the step whose report is awaited, or the end.
#[derive(Clone, Copy, Debug, PartialEq, Eq, Structural)]
pub enum Stage {
    Updating,
    Writing,
    Staging,
    Committing,
    Publishing,
    Finished,
}

/// The state of one run.
#[derive(Debug, PartialEq, Eq)]
pub struct Sequencer {
    stage: Stage,
    root: String,
    directory: String,
    path: String,
    content: String,
    message: String,
    outcome: Result<(), SyncError>,
}

pub struct SequencerView {
    pub stage: Stage,
    /// The repository location: the directory in which the tool runs.
    pub root: Seq<char>,
    /// The directory in which the entry's file is written.
    pub directory: Seq<char>,
    /// Where the entry's file is written.
    pub path: Seq<char>,
    /// The text of the entry's file.
    pub content: Seq<char>,
    /// The message of the commit.
    pub message: Seq<char>,
    /// `Ok` until a step has failed, then the error of that step.
    pub outcome: Result<(), SyncErrorView>,
}

impl View for Sequencer {
    type V = SequencerView;

    closed spec fn view(&self) -> SequencerView {
        SequencerView {
            stage: self.stage,
            root: self.root@,
            directory: self.directory@,
            path: self.path@,
            content: self.content@,
            message: self.message@,
            outcome: outcome_view(self.outcome),
        }
    }
}

/// The tool's step that a stage stands for, if it stands for one.
pub open spec fn step_of(stage: Stage) -> Option<GitStep> {
    match stage {
        Stage::Updating => Some(GitStep::Update),
        Stage::Staging => Some(GitStep::Stage),
        Stage::Committing => Some(GitStep::Commit),
        Stage::Publishing => Some(GitStep::Publish),
        Stage::Writing | Stage::Finished => None,
    }
}

/// The stage that follows a step that succeeded.
pub open spec fn following(stage: Stage) -> Stage {
    match stage {
        Stage::Updating => Stage::Writing,
        Stage::Writing => Stage::Staging,
        Stage::Staging => Stage::Committing,
        Stage::Committing => Stage::Publishing,
        Stage::Publishing | Stage::Finished => Stage::Finished,
    }
}

/// A run that ended before its first step.
pub open spec fn halted(error: SyncErrorView) -> SequencerView {
    SequencerView {
        stage: Stage::Finished,
        root: Seq::empty(),
        directory: Seq::empty(),
        path: Seq::empty(),
        content: Seq::empty(),
        message: Seq::empty(),
        outcome: Err(error),
    }
}

/// The state in which a run begins. Without a repository location, or with
/// a date of the wrong shape, it has ended already; else it awaits the update.
pub open spec fn started(location: Option<Seq<char>>, record: DiaryView) -> SequencerView {
    match location {
        None => halted(SyncErrorView::ConfigurationMissing),
        Some(root) => if is_date(record.date) {
            SequencerView {
                stage: Stage::Updating,
                root: root,
                directory: target_directory_text(root, record.date),
                path: target_path_text(root, record.date),
                content: file_text(record.title, record.content),
                message: commit_message_text(record.date),
                outcome: Ok(()),
            }
        } else {
            halted(SyncErrorView::Validation)
        },
    }
}

/// What the state asks the caller to do.
pub open spec fn action_of(s: SequencerView) -> SyncActionView {
    match step_of(s.stage) {
        Some(step) => SyncActionView::Run {
            step: step,
            directory: s.root,
            args: step_args(step, s.message),
        },
        None => if s.stage == Stage::Writing {
            SyncActionView::Write { directory: s.directory, path: s.path, content: s.content }
        } else {
            SyncActionView::Finish(s.outcome)
        },
    }
}

/// Whether a report is of the kind that the awaited step gives: a report on
/// the tool for a step of the tool, a report on the file for the write, and
/// none once the run is over.
pub open spec fn answers(stage: Stage, report: ReportView) -> bool {
    match report {
        ReportView::Ran(_) | ReportView::SpawnFailed(_) | ReportView::WaitFailed(_) => step_of(
            stage,
        ) is Some,
        ReportView::Written | ReportView::WriteFailed(_) => stage == Stage::Writing,
    }
}

/// The error that a report of the awaited step stands for, if it reports a
/// failure.
pub open spec fn failure(s: SequencerView, report: ReportView) -> Option<SyncErrorView>
    recommends
        answers(s.stage, report),
{
    match report {
        ReportView::Ran(outcome) => if outcome.success {
            None
        } else {
            Some(
                SyncErrorView::ExternalToolExecution {
                    step: step_of(s.stage)->0,
                    command: command_line_text(step_args(step_of(s.stage)->0, s.message)),
                    stderr: outcome.stderr,
                },
            )
        },
        ReportView::SpawnFailed(reason) => Some(
            SyncErrorView::ExternalToolSpawn { step: step_of(s.stage)->0, reason: reason },
        ),
        ReportView::WaitFailed(reason) => Some(
            SyncErrorView::ExternalToolWait { step: step_of(s.stage)->0, reason: reason },
        ),
        ReportView::Written => None,
        ReportView::WriteFailed(reason) => Some(SyncErrorView::Filesystem { reason: reason }),
    }
}

/// The state after the awaited step has succeeded: the following stage.
pub open spec fn succeeded(s: SequencerView) -> SequencerView {
    SequencerView {
        stage: following(s.stage),
        root: s.root,
        directory: s.directory,
        path: s.path,
        content: s.content,
        message: s.message,
        outcome: s.outcome,
    }
}

/// The state after the awaited step has failed: the run is over, with the
/// error of that step.
pub open spec fn failed(s: SequencerView, error: SyncErrorView) -> SequencerView {
    SequencerView {
        stage: Stage::Finished,
        root: s.root,
        directory: s.directory,
        path: s.path,
        content: s.content,
        message: s.message,
        outcome: Err(error),
    }
}

/// The state after a report. A report that does not answer the awaited step
/// changes nothing. A failure ends the run with its error; a success moves
/// on to the following stage.
pub open spec fn advanced(s: SequencerView, report: ReportView) -> SequencerView {
    if !answers(s.stage, report) {
        s
    } else {
        match failure(s, report) {
            Some(error) => failed(s, error),
            None => succeeded(s),
        }
    }
}

/// The state after a sequence of reports, taken in order.
pub open spec fn replayed(s: SequencerView, reports: Seq<ReportView>) -> SequencerView
    decreases reports.len(),
{
    if reports.len() == 0 {
        s
    } else {
        advanced(replayed(s, reports.drop_last()), reports.last())
    }
}

impl SyncError {
    /// A second copy of the error.
    pub fn duplicate(&self) -> (copy: SyncError)
        ensures
            copy@ == self@,
    {
        match self {
            SyncError::ConfigurationMissing => SyncError::ConfigurationMissing,
            SyncError::Validation => SyncError::Validation,
            SyncError::Filesystem { reason } => SyncError::Filesystem { reason: reason.clone() },
            SyncError::ExternalToolSpawn { step, reason } => SyncError::ExternalToolSpawn {
                step: *step,
                reason: reason.clone(),
            },
            SyncError::ExternalToolWait { step, reason } => SyncError::ExternalToolWait {
                step: *step,
                reason: reason.clone(),
            },
            SyncError::ExternalToolExecution { step, command, stderr } => {
                let bytes = stderr.clone();
                SyncError::ExternalToolExecution {
                    step: *step,
                    command: command.clone(),
                    stderr: bytes,
                }
            },
        }
    }
}

impl Stage {
    /// The tool's step that this stage stands for, if it stands for one.
    pub fn step(self) -> (step: Option<GitStep>)
        ensures
            step == step_of(self),
    {
        match self {
            Stage::Updating => Some(GitStep::Update),
            Stage::Staging => Some(GitStep::Stage),
            Stage::Committing => Some(GitStep::Commit),
            Stage::Publishing => Some(GitStep::Publish),
            Stage::Writing | Stage::Finished => None,
        }
    }

    /// The stage that follows when this one has succeeded.
    pub fn next(self) -> (next: Stage)
        ensures
            next == following(self),
    {
        match self {
            Stage::Updating => Stage::Writing,
            Stage::Writing => Stage::Staging,
            Stage::Staging => Stage::Committing,
            Stage::Committing => Stage::Publishing,
            Stage::Publishing | Stage::Finished => Stage::Finished,
        }
    }
}

impl Sequencer {
    fn halt(error: SyncError) -> (s: Sequencer)
        ensures
            s@ == halted(error@),
    {
        Sequencer {
            stage: Stage::Finished,
            root: String::new(),
            directory: String::new(),
            path: String::new(),
            content: String::new(),
            message: String::new(),
            outcome: Err(error),
        }
    }

    /// Begins a run for an entry, in the repository at `location`.
    ///
    /// The location and the date are checked before anything is asked of the
    /// caller: without a location the run ends with `ConfigurationMissing`,
    /// with a date of the wrong shape it ends with `Validation`.
    pub fn start(location: Option<String>, record: &Diary) -> (s: Sequencer)
        ensures
            s@ == started(location.deep_view(), record@),
    {
        let root = match location {
            None => {
                return Sequencer::halt(SyncError::ConfigurationMissing);
            },
            Some(root) => root,
        };
        let directory = record.target_directory(root.as_str());
        let path = record.target_path(root.as_str());
        let message = record.commit_message();
        match (directory, path, message) {
            (Some(directory), Some(path), Some(message)) => Sequencer {
                stage: Stage::Updating,
                root: root,
                directory: directory,
                path: path,
                content: record.to_file(),
                message: message,
                outcome: Ok(()),
            },
            _ => Sequencer::halt(SyncError::Validation),
        }
    }

    /// Where the run stands.
    pub fn stage(&self) -> (stage: Stage)
        ensures
            stage == self@.stage,
    {
        self.stage
    }

    /// Whether the run is over.
    pub fn is_finished(&self) -> (finished: bool)
        ensures
            finished == (self@.stage == Stage::Finished),
    {
        self.stage == Stage::Finished
    }

    /// What the caller is to do next.
    pub fn action(&self) -> (action: SyncAction)
        ensures
            action@ == action_of(self@),
    {
        match self.stage.step() {
            Some(step) => SyncAction::Run {
                step: step,
                directory: self.root.clone(),
                args: step.args(self.message.as_str()),
            },
            None => if self.stage == Stage::Writing {
                SyncAction::Write {
                    directory: self.directory.clone(),
                    path: self.path.clone(),
                    content: self.content.clone(),
                }
            } else {
                SyncAction::Finish(
                    match &self.outcome {
                        Ok(_) => Ok(()),
                        Err(error) => Err(error.duplicate()),
                    },
                )
            },
        }
    }

    fn proceed(&mut self)
        ensures
            final(self)@ == succeeded(old(self)@),
    {
        self.stage = self.stage.next();
    }

    fn fail(&mut self, error: SyncError)
        ensures
            final(self)@ == failed(old(self)@, error@),
    {
        self.stage = Stage::Finished;
        self.outcome = Err(error);
    }

    /// Takes the report on the action that was asked for.
    ///
    /// A report of another kind than the awaited step gives is left aside and
    /// the state stays as it is, so the same action is asked for again.
    pub fn advance(&mut self, report: Report)
        ensures
            final(self)@ == advanced(old(self)@, report@),
    {
        match report {
            Report::Ran(outcome) => match self.stage.step() {
                Some(step) => if outcome.success {
                    self.proceed()
                } else {
                    let args = step.args(self.message.as_str());
                    self.fail(
                        SyncError::ExternalToolExecution {
                            step: step,
                            command: command_line(&args),
                            stderr: outcome.stderr,
                        },
                    )
                },
                None => {},
            },
            Report::SpawnFailed(reason) => match self.stage.step() {
                Some(step) => self.fail(SyncError::ExternalToolSpawn { step: step, reason: reason }),
                None => {},
            },
            Report::WaitFailed(reason) => match self.stage.step() {
                Some(step) => self.fail(SyncError::ExternalToolWait { step: step, reason: reason }),
                None => {},
            },
            Report::Written => if self.stage == Stage::Writing {
                self.proceed()
            },
            Report::WriteFailed(reason) => if self.stage == Stage::Writing {
                self.fail(SyncError::Filesystem { reason: reason })
            },
        }
    }
}

/// Whether an action asks the caller for work: to run the tool or to write
/// the file.
pub open spec fn has_effect(action: SyncActionView) -> bool {
    !(action is Finish)
}

/// A run that is over stays over: whatever is reported afterwards, the state
/// does not change, so no further work is ever asked for.
pub proof fn lemma_finished_is_final(s: SequencerView, reports: Seq<ReportView>)
    requires
        s.stage == Stage::Finished,
    ensures
        replayed(s, reports) == s,
        !has_effect(action_of(replayed(s, reports))),
    decreases reports.len(),
{
    if reports.len() > 0 {
        lemma_finished_is_final(s, reports.drop_last());
    }
}

/// An error is on record only when the run is over: while a run is at work
/// no step has failed.
pub proof fn lemma_error_means_finished(
    location: Option<Seq<char>>,
    record: DiaryView,
    reports: Seq<ReportView>,
)
    ensures
        replayed(started(location, record), reports).outcome is Err ==> replayed(
            started(location, record),
            reports,
        ).stage == Stage::Finished,
    decreases reports.len(),
{
    if reports.len() > 0 {
        lemma_error_means_finished(location, record, reports.drop_last());
    }
}

/// The first step that fails ends the run: its error is the result, and no
/// later report brings the run back to work.
pub proof fn lemma_failure_ends_run(s: SequencerView, report: ReportView, later: Seq<ReportView>)
    requires
        answers(s.stage, report),
        failure(s, report) is Some,
    ensures
        action_of(replayed(advanced(s, report), later)) == SyncActionView::Finish(
            Err(failure(s, report)->0),
        ),
{
    lemma_finished_is_final(advanced(s, report), later);
}

/// When the update from the remote fails, the run ends there: the file is
/// not written and the tool is not run again.
pub proof fn lemma_failed_update_stops_run(
    s: SequencerView,
    report: ReportView,
    later: Seq<ReportView>,
)
    requires
        s.stage == Stage::Updating,
        report is SpawnFailed || report is WaitFailed || (report is Ran && !report->Ran_0.success),
    ensures
        !has_effect(action_of(replayed(advanced(s, report), later))),
{
    lemma_failure_ends_run(s, report, later);
}

/// When the write of the file fails, the run ends there: nothing is staged,
/// committed or published, and nothing is asked for that would undo the
/// update that went before.
pub proof fn lemma_failed_write_stops_run(
    s: SequencerView,
    reason: Seq<char>,
    later: Seq<ReportView>,
)
    requires
        s.stage == Stage::Writing,
    ensures
        action_of(replayed(advanced(s, ReportView::WriteFailed(reason)), later))
            == SyncActionView::Finish(Err(SyncErrorView::Filesystem { reason: reason })),
{
    lemma_failure_ends_run(s, ReportView::WriteFailed(reason), later);
}

/// A run for an entry whose date does not have the shape `YYYY-MM-DD` never
/// asks for work: from its first action on it is over, with an error.
pub proof fn lemma_malformed_date_does_nothing(
    location: Option<Seq<char>>,
    record: DiaryView,
    reports: Seq<ReportView>,
)
    requires
        !is_date(record.date),
    ensures
        action_of(replayed(started(location, record), reports)) == SyncActionView::Finish(
            Err(
                if location is Some {
                    SyncErrorView::Validation
                } else {
                    SyncErrorView::ConfigurationMissing
                },
            ),
        ),
{
    lemma_finished_is_final(started(location, record), reports);
}

/// The reports of a run in which every step succeeds.
pub open spec fn all_succeed(reports: Seq<ReportView>) -> bool {
    &&& reports.len() == 5
    &&& reports[0] is Ran && reports[0]->Ran_0.success
    &&& reports[1] is Written
    &&& reports[2] is Ran && reports[2]->Ran_0.success
    &&& reports[3] is Ran && reports[3]->Ran_0.success
    &&& reports[4] is Ran && reports[4]->Ran_0.success
}

/// With a location, a well-formed date and every step succeeding, the run
/// asks for its five steps in order, each in the repository and the write at
/// the entry's path, and then ends with success.
pub proof fn lemma_successful_run(root: Seq<char>, record: DiaryView, reports: Seq<ReportView>)
    requires
        is_date(record.date),
        all_succeed(reports),
    ensures
        ({
            let s = started(Some(root), record);
            let message = commit_message_text(record.date);
            &&& action_of(s) == SyncActionView::Run {
                step: GitStep::Update,
                directory: root,
                args: step_args(GitStep::Update, message),
            }
            &&& action_of(replayed(s, reports.take(1))) == SyncActionView::Write {
                directory: target_directory_text(root, record.date),
                path: target_path_text(root, record.date),
                content: file_text(record.title, record.content),
            }
            &&& action_of(replayed(s, reports.take(2))) == SyncActionView::Run {
                step: GitStep::Stage,
                directory: root,
                args: step_args(GitStep::Stage, message),
            }
            &&& action_of(replayed(s, reports.take(3))) == SyncActionView::Run {
                step: GitStep::Commit,
                directory: root,
                args: step_args(GitStep::Commit, message),
            }
            &&& action_of(replayed(s, reports.take(4))) == SyncActionView::Run {
                step: GitStep::Publish,
                directory: root,
                args: step_args(GitStep::Publish, message),
            }
            &&& action_of(replayed(s, reports)) == SyncActionView::Finish(Ok(()))
        }),
{
    let s = started(Some(root), record);
    let r1 = reports.take(1);
    let r2 = reports.take(2);
    let r3 = reports.take(3);
    let r4 = reports.take(4);
    assert(replayed(s, r1.drop_last()) == s);
    assert(r2.drop_last() =~= r1);
    assert(r3.drop_last() =~= r2);
    assert(r4.drop_last() =~= r3);
}

} // verus!
