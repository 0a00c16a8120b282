//! The order of the steps: resolve the URL, download the archive, make the
//! target directory, unpack. The workflow is a state machine. It names the
//! next action and the status lines to print; the caller performs the action
//! and hands back its outcome. The first failure ends the run.

use vstd::prelude::*;
use vstd::string::StringExecFns;

use crate::download::ARCHIVE_FILE;
use crate::error::{Stage4Error, Stage4ErrorView};
use crate::extract::{spec_unpack_outcome, unit_result_view, TARGET_DIRECTORY};
use crate::profile::Profile;
use crate::resolver::{resolution_view, STAGE4_SCRIPT_URL};

verus! {

/// The action whose outcome the workflow is waiting for.
#[derive(Clone, Copy, Debug, PartialEq, Eq, Structural)]
pub enum Phase {
    Resolving,
    Downloading,
    Preparing,
    Unpacking,
}

/// A run of the workflow that has not ended yet.
#[derive(Clone, Copy, Debug, PartialEq, Eq, Structural)]
pub struct Workflow {
    /// The build profile whose archive is fetched.
    pub profile: Profile,
    /// Whether the archive is unpacked after the download.
    pub extract: bool,
    /// The pending action.
    pub phase: Phase,
}

/// What the caller is asked to do.
#[derive(Clone, Debug, PartialEq, Eq)]
pub enum Action {
    /// Fetch the script at `script_url` and resolve the URL of `profile`.
    Resolve { script_url: String, profile: Profile },
    /// Fetch `url` and write what it holds to `file`.
    Download { url: String, file: String },
    /// Make the directory `path`, with the directories above it.
    CreateDirectory { path: String },
    /// Unpack `tar_file` into the directory `target`.
    Unpack { tar_file: String, target: String },
}

/// The mathematical value of an [`Action`].
pub enum ActionView {
    Resolve { script_url: Seq<char>, profile: Profile },
    Download { url: Seq<char>, file: Seq<char> },
    CreateDirectory { path: Seq<char> },
    Unpack { tar_file: Seq<char>, target: Seq<char> },
}

impl View for Action {
    type V = ActionView;

    open spec fn view(&self) -> ActionView {
        match self {
            Action::Resolve { script_url, profile } => ActionView::Resolve {
                script_url: script_url@,
                profile: *profile,
            },
            Action::Download { url, file } => ActionView::Download { url: url@, file: file@ },
            Action::CreateDirectory { path } => ActionView::CreateDirectory { path: path@ },
            Action::Unpack { tar_file, target } => ActionView::Unpack {
                tar_file: tar_file@,
                target: target@,
            },
        }
    }
}

/// How an action ended.
#[derive(Clone, Debug, PartialEq, Eq)]
pub enum Outcome {
    /// The URL was resolved.
    Resolved(String),
    /// The action was carried out and yields nothing.
    Completed,
    /// The action failed.
    Failed(Stage4Error),
}

/// The mathematical value of an [`Outcome`].
pub enum OutcomeView {
    Resolved(Seq<char>),
    Completed,
    Failed(Stage4ErrorView),
}

impl View for Outcome {
    type V = OutcomeView;

    open spec fn view(&self) -> OutcomeView {
        match self {
            Outcome::Resolved(url) => OutcomeView::Resolved(url@),
            Outcome::Completed => OutcomeView::Completed,
            Outcome::Failed(e) => OutcomeView::Failed(e@),
        }
    }
}

/// How the run goes on.
#[derive(Debug, PartialEq, Eq)]
pub enum Next {
    /// The run goes on in the given state, once the action is performed.
    Continue(Workflow, Action),
    /// The run has ended, with success or with the failure that ended it.
    Finished(Result<(), Stage4Error>),
}

/// The mathematical value of a [`Next`].
pub enum NextView {
    Continue(Workflow, ActionView),
    Finished(Result<(), Stage4ErrorView>),
}

impl View for Next {
    type V = NextView;

    open spec fn view(&self) -> NextView {
        match self {
            Next::Continue(workflow, action) => NextView::Continue(*workflow, action@),
            Next::Finished(result) => NextView::Finished(unit_result_view(*result)),
        }
    }
}

/// One move of the workflow: the status lines to print now, in order, and how
/// the run goes on.
#[derive(Debug, PartialEq, Eq)]
pub struct Step {
    pub reports: Vec<String>,
    pub next: Next,
}

/// The mathematical value of a [`Step`].
pub struct StepView {
    pub reports: Seq<Seq<char>>,
    pub next: NextView,
}

impl View for Step {
    type V = StepView;

    open spec fn view(&self) -> StepView {
        StepView { reports: self.reports.deep_view(), next: self.next@ }
    }
}

/// The status line that names the resolved URL.
pub open spec fn url_report(url: Seq<char>) -> Seq<char> {
    "using stage4 url '"@ + url + "'"@
}

/// The end of a run, with nothing to print.
pub open spec fn halt(result: Result<(), Stage4ErrorView>) -> StepView {
    StepView { reports: Seq::empty(), next: NextView::Finished(result) }
}

/// The first move of a run: resolve the URL of the profile.
pub open spec fn spec_begin(profile: Profile, extract: bool) -> StepView {
    StepView {
        reports: Seq::empty(),
        next: NextView::Continue(
            Workflow { profile, extract, phase: Phase::Resolving },
            ActionView::Resolve { script_url: STAGE4_SCRIPT_URL@, profile },
        ),
    }
}

/// The move that answers the outcome of the pending action.
///
/// A failed action ends the run with its failure. An outcome that does not
/// answer the pending action ends it with `UnexpectedOutcome`. Otherwise the
/// run goes on to the next action of the sequence, or ends with success after
/// the last one.
pub open spec fn spec_advance(workflow: Workflow, outcome: OutcomeView) -> StepView {
    match outcome {
        OutcomeView::Failed(e) => halt(Err(e)),
        OutcomeView::Resolved(url) => match workflow.phase {
            Phase::Resolving => StepView {
                reports: seq![url_report(url), "downloading.."@],
                next: NextView::Continue(
                    Workflow { phase: Phase::Downloading, ..workflow },
                    ActionView::Download { url, file: ARCHIVE_FILE@ },
                ),
            },
            _ => halt(Err(Stage4ErrorView::UnexpectedOutcome)),
        },
        OutcomeView::Completed => match workflow.phase {
            Phase::Resolving => halt(Err(Stage4ErrorView::UnexpectedOutcome)),
            Phase::Downloading => if workflow.extract {
                StepView {
                    reports: seq!["done downloading.."@, "unpacking"@],
                    next: NextView::Continue(
                        Workflow { phase: Phase::Preparing, ..workflow },
                        ActionView::CreateDirectory { path: TARGET_DIRECTORY@ },
                    ),
                }
            } else {
                StepView {
                    reports: seq!["done downloading.."@],
                    next: NextView::Finished(Ok(())),
                }
            },
            Phase::Preparing => StepView {
                reports: Seq::empty(),
                next: NextView::Continue(
                    Workflow { phase: Phase::Unpacking, ..workflow },
                    ActionView::Unpack { tar_file: ARCHIVE_FILE@, target: TARGET_DIRECTORY@ },
                ),
            },
            Phase::Unpacking => StepView {
                reports: seq!["finished unpacking"@],
                next: NextView::Finished(Ok(())),
            },
        },
    }
}

/// The outcome that stands for the result of a resolution.
pub open spec fn spec_outcome_of_resolution(r: Result<Seq<char>, Stage4ErrorView>) -> OutcomeView {
    match r {
        Ok(url) => OutcomeView::Resolved(url),
        Err(e) => OutcomeView::Failed(e),
    }
}

/// The outcome that stands for the result of an action that yields nothing.
pub open spec fn spec_outcome_of_result(r: Result<(), Stage4ErrorView>) -> OutcomeView {
    match r {
        Ok(()) => OutcomeView::Completed,
        Err(e) => OutcomeView::Failed(e),
    }
}

impl Outcome {
    /// Turns the result of a resolution into an outcome.
    pub fn of_resolution(r: Result<String, Stage4Error>) -> (outcome: Outcome)
        ensures
            outcome@ == spec_outcome_of_resolution(resolution_view(r)),
    {
        match r {
            Ok(url) => Outcome::Resolved(url),
            Err(e) => Outcome::Failed(e),
        }
    }

    /// Turns the result of a download, of making a directory or of unpacking
    /// into an outcome.
    pub fn of_result(r: Result<(), Stage4Error>) -> (outcome: Outcome)
        ensures
            outcome@ == spec_outcome_of_result(unit_result_view(r)),
    {
        match r {
            Ok(()) => Outcome::Completed,
            Err(e) => Outcome::Failed(e),
        }
    }
}

fn halted(e: Stage4Error) -> (step: Step)
    ensures
        step@ == halt(Err(e@)),
{
    let step = Step { reports: Vec::new(), next: Next::Finished(Err(e)) };
    assert(step.reports.deep_view() =~= Seq::<Seq<char>>::empty());
    step
}

impl Workflow {
    /// Starts a run for `profile`. With `extract` unset the run ends once the
    /// archive is downloaded.
    pub fn begin(profile: Profile, extract: bool) -> (step: Step)
        ensures
            step@ == spec_begin(profile, extract),
    {
        let step = Step {
            reports: Vec::new(),
            next: Next::Continue(
                Workflow { profile, extract, phase: Phase::Resolving },
                Action::Resolve { script_url: STAGE4_SCRIPT_URL.to_owned(), profile },
            ),
        };
        assert(step.reports.deep_view() =~= Seq::<Seq<char>>::empty());
        step
    }

    /// Answers the outcome of the pending action with the next move.
    pub fn advance(self, outcome: Outcome) -> (step: Step)
        ensures
            step@ == spec_advance(self, outcome@),
    {
        match outcome {
            Outcome::Failed(e) => halted(e),
            Outcome::Resolved(url) => match self.phase {
                Phase::Resolving => {
                    let mut line = "using stage4 url '".to_owned();
                    line.append(url.as_str());
                    line.append("'");
                    let mut reports: Vec<String> = Vec::new();
                    reports.push(line);
                    reports.push("downloading..".to_owned());
                    assert(reports.deep_view() =~= seq![url_report(url@), "downloading.."@]);
                    Step {
                        reports,
                        next: Next::Continue(
                            Workflow { profile: self.profile, extract: self.extract, phase: Phase::Downloading },
                            Action::Download { url, file: ARCHIVE_FILE.to_owned() },
                        ),
                    }
                },
                _ => halted(Stage4Error::UnexpectedOutcome),
            },
            Outcome::Completed => match self.phase {
                Phase::Resolving => halted(Stage4Error::UnexpectedOutcome),
                Phase::Downloading => {
                    let mut reports: Vec<String> = Vec::new();
                    reports.push("done downloading..".to_owned());
                    if self.extract {
                        reports.push("unpacking".to_owned());
                        assert(reports.deep_view() =~= seq!["done downloading.."@, "unpacking"@]);
                        Step {
                            reports,
                            next: Next::Continue(
                                Workflow { profile: self.profile, extract: self.extract, phase: Phase::Preparing },
                                Action::CreateDirectory { path: TARGET_DIRECTORY.to_owned() },
                            ),
                        }
                    } else {
                        assert(reports.deep_view() =~= seq!["done downloading.."@]);
                        Step { reports, next: Next::Finished(Ok(())) }
                    }
                },
                Phase::Preparing => {
                    let step = Step {
                        reports: Vec::new(),
                        next: Next::Continue(
                            Workflow { profile: self.profile, extract: self.extract, phase: Phase::Unpacking },
                            Action::Unpack {
                                tar_file: ARCHIVE_FILE.to_owned(),
                                target: TARGET_DIRECTORY.to_owned(),
                            },
                        ),
                    };
                    assert(step.reports.deep_view() =~= Seq::<Seq<char>>::empty());
                    step
                },
                Phase::Unpacking => {
                    let mut reports: Vec<String> = Vec::new();
                    reports.push("finished unpacking".to_owned());
                    assert(reports.deep_view() =~= seq!["finished unpacking"@]);
                    Step { reports, next: Next::Finished(Ok(())) }
                },
            },
        }
    }
}

/// A failed action ends the run at once, with that failure and with nothing
/// more to print or to do, whatever the pending action was.
pub proof fn lemma_failure_ends_run(workflow: Workflow, e: Stage4ErrorView)
    ensures
        spec_advance(workflow, OutcomeView::Failed(e)) == halt(Err(e)),
{
}

/// When the archiving tool exits otherwise than with status zero, its verdict
/// is a failure that holds the captured diagnostic bytes, and the run ends
/// with that failure: no further action is asked for.
pub proof fn lemma_tool_failure_ends_run(
    workflow: Workflow,
    exit_code: Option<i32>,
    diagnostic: Seq<u8>,
)
    requires
        exit_code != Some(0i32),
    ensures
        spec_unpack_outcome(exit_code, diagnostic) == Err::<(), Stage4ErrorView>(
            Stage4ErrorView::ToolFailed(diagnostic),
        ),
        spec_advance(workflow, spec_outcome_of_result(spec_unpack_outcome(exit_code, diagnostic)))
            == halt(Err(Stage4ErrorView::ToolFailed(diagnostic))),
{
}

/// A run in which every action succeeds asks for the four actions in their
/// order (resolve, download, make the directory, unpack) and then ends with
/// success.
pub proof fn lemma_successful_run(profile: Profile, url: Seq<char>)
    ensures
        ({
            let resolving = Workflow { profile, extract: true, phase: Phase::Resolving };
            let downloading = Workflow { profile, extract: true, phase: Phase::Downloading };
            let preparing = Workflow { profile, extract: true, phase: Phase::Preparing };
            let unpacking = Workflow { profile, extract: true, phase: Phase::Unpacking };
            &&& spec_begin(profile, true).next == NextView::Continue(
                resolving,
                ActionView::Resolve { script_url: STAGE4_SCRIPT_URL@, profile },
            )
            &&& spec_advance(resolving, OutcomeView::Resolved(url)).next == NextView::Continue(
                downloading,
                ActionView::Download { url, file: ARCHIVE_FILE@ },
            )
            &&& spec_advance(downloading, OutcomeView::Completed).next == NextView::Continue(
                preparing,
                ActionView::CreateDirectory { path: TARGET_DIRECTORY@ },
            )
            &&& spec_advance(preparing, OutcomeView::Completed).next == NextView::Continue(
                unpacking,
                ActionView::Unpack { tar_file: ARCHIVE_FILE@, target: TARGET_DIRECTORY@ },
            )
            &&& spec_advance(unpacking, OutcomeView::Completed).next == NextView::Finished(Ok(()))
        }),
{
}

} // verus!
