//! Applying a downloaded release: the order of the steps and what follows
//! each outcome. The caller performs a step (download, hash check, backup,
//! installer, replacement, cleanup) and hands back how it went; this module
//! decides the next one. The release is never installed before its SHA-256
//! was checked, and a failed installer or post-install check rolls back.

use vstd::prelude::*;
use crate::text::{ends_with_spec, lowercase, to_owned_string};
use crate::update::updater::{download_target_path, download_target_spec, is_zip_download, DownloadPlan};

verus! {

/// A step of applying a release: the one just performed, or the next.
#[derive(Debug, Clone, PartialEq, Eq)]
pub enum ApplyStep {
    /// The download plan is known; nothing performed yet.
    Start,
    /// Download the planned file.
    Download,
    /// Check the download against the planned SHA-256.
    VerifyHash,
    /// Copy the running binary into a dated backup directory.
    BackupBinary,
    /// Run the downloaded installer script.
    RunInstaller,
    /// Ask the installed binary for its version.
    VerifyInstall,
    /// Put the backed-up binary back; the message says what failed.
    Rollback(String),
    /// Extract the binary from the downloaded archive and replace the running one.
    ExtractAndReplace,
    /// Stage the downloaded binary next to the running one and rename it over it.
    StageAndReplace,
    /// Remove the downloaded file.
    RemoveDownload,
    /// Remove the oldest backup directories.
    CleanupBackups,
    /// The release is installed.
    Done,
    /// The update stopped with this message.
    Failed(String),
}

/// A step with its message as a character sequence.
pub ghost enum ApplyStepView {
    Start,
    Download,
    VerifyHash,
    BackupBinary,
    RunInstaller,
    VerifyInstall,
    Rollback(Seq<char>),
    ExtractAndReplace,
    StageAndReplace,
    RemoveDownload,
    CleanupBackups,
    Done,
    Failed(Seq<char>),
}

impl View for ApplyStep {
    type V = ApplyStepView;

    open spec fn view(&self) -> ApplyStepView {
        match self {
            ApplyStep::Start => ApplyStepView::Start,
            ApplyStep::Download => ApplyStepView::Download,
            ApplyStep::VerifyHash => ApplyStepView::VerifyHash,
            ApplyStep::BackupBinary => ApplyStepView::BackupBinary,
            ApplyStep::RunInstaller => ApplyStepView::RunInstaller,
            ApplyStep::VerifyInstall => ApplyStepView::VerifyInstall,
            ApplyStep::Rollback(m) => ApplyStepView::Rollback(m@),
            ApplyStep::ExtractAndReplace => ApplyStepView::ExtractAndReplace,
            ApplyStep::StageAndReplace => ApplyStepView::StageAndReplace,
            ApplyStep::RemoveDownload => ApplyStepView::RemoveDownload,
            ApplyStep::CleanupBackups => ApplyStepView::CleanupBackups,
            ApplyStep::Done => ApplyStepView::Done,
            ApplyStep::Failed(m) => ApplyStepView::Failed(m@),
        }
    }
}

/// How a step went.
#[derive(Debug, Clone, PartialEq, Eq)]
pub enum StepResult {
    /// The step did what it should.
    Done,
    /// The step could not be carried out; the message says why.
    Error(String),
    /// The step ran but its check failed (the installer's exit code, the
    /// installed version); the message says why.
    Rejected(String),
}

/// A step result with its message as a character sequence.
pub ghost enum StepResultView {
    Done,
    Error(Seq<char>),
    Rejected(Seq<char>),
}

impl View for StepResult {
    type V = StepResultView;

    open spec fn view(&self) -> StepResultView {
        match self {
            StepResult::Done => StepResultView::Done,
            StepResult::Error(m) => StepResultView::Error(m@),
            StepResult::Rejected(m) => StepResultView::Rejected(m@),
        }
    }
}

/// The plan as the steps read it: what is downloaded, its digest, and
/// whether it is an installer script.
pub ghost struct PlanView {
    pub url: Seq<char>,
    pub sha256: Seq<char>,
    pub installer: bool,
}

impl View for DownloadPlan {
    type V = PlanView;

    open spec fn view(&self) -> PlanView {
        PlanView { url: self.url@, sha256: self.sha256@, installer: self.installer }
    }
}

/// The download is an archive: the file it is stored in ends in `.zip`.
pub open spec fn plan_is_zip(plan: PlanView) -> bool {
    ends_with_spec(lowercase(download_target_spec(plan.url)), ".zip"@)
}

/// The message of a result that is not `Done`.
pub open spec fn result_message(o: StepResultView) -> Seq<char> {
    match o {
        StepResultView::Done => Seq::empty(),
        StepResultView::Error(m) => m,
        StepResultView::Rejected(m) => m,
    }
}

/// The step after `last`, given how it went.
pub open spec fn apply_step_spec(last: ApplyStepView, outcome: StepResultView, plan: PlanView) -> ApplyStepView {
    let ok = outcome is Done;
    let failed = ApplyStepView::Failed(result_message(outcome));
    match last {
        ApplyStepView::Start => ApplyStepView::Download,
        ApplyStepView::Download => if ok { ApplyStepView::VerifyHash } else { failed },
        ApplyStepView::VerifyHash => if !ok {
            failed
        } else if plan.installer {
            ApplyStepView::BackupBinary
        } else if plan_is_zip(plan) {
            ApplyStepView::ExtractAndReplace
        } else {
            ApplyStepView::BackupBinary
        },
        ApplyStepView::BackupBinary => if !ok {
            failed
        } else if plan.installer {
            ApplyStepView::RunInstaller
        } else {
            ApplyStepView::StageAndReplace
        },
        ApplyStepView::RunInstaller => match outcome {
            StepResultView::Done => ApplyStepView::VerifyInstall,
            StepResultView::Rejected(m) => ApplyStepView::Rollback(m),
            StepResultView::Error(m) => ApplyStepView::Failed(m),
        },
        ApplyStepView::VerifyInstall => if ok {
            ApplyStepView::RemoveDownload
        } else {
            ApplyStepView::Rollback(result_message(outcome))
        },
        ApplyStepView::Rollback(m) => match outcome {
            StepResultView::Done => ApplyStepView::Failed(m),
            _ => failed,
        },
        ApplyStepView::ExtractAndReplace => if ok { ApplyStepView::RemoveDownload } else { failed },
        ApplyStepView::StageAndReplace => if ok { ApplyStepView::RemoveDownload } else { failed },
        ApplyStepView::RemoveDownload => ApplyStepView::CleanupBackups,
        ApplyStepView::CleanupBackups => ApplyStepView::Done,
        ApplyStepView::Done => ApplyStepView::Done,
        ApplyStepView::Failed(m) => ApplyStepView::Failed(m),
    }
}

fn message_of(outcome: &StepResult) -> (r: String)
    ensures
        r@ == result_message(outcome@),
{
    match outcome {
        StepResult::Done => String::new(),
        StepResult::Error(m) => to_owned_string(m.as_str()),
        StepResult::Rejected(m) => to_owned_string(m.as_str()),
    }
}

/// Whether the planned download is stored as an archive.
pub fn download_is_zip(plan: &DownloadPlan) -> (r: bool)
    ensures
        r == plan_is_zip(plan@),
{
    let target = download_target_path(plan.url.as_str());
    is_zip_download(target.as_str())
}

/// The step after `last`.
pub fn next_apply_step(last: &ApplyStep, outcome: &StepResult, plan: &DownloadPlan) -> (r: ApplyStep)
    ensures
        r@ == apply_step_spec(last@, outcome@, plan@),
{
    let ok = match outcome {
        StepResult::Done => true,
        _ => false,
    };
    match last {
        ApplyStep::Start => ApplyStep::Download,
        ApplyStep::Download => if ok { ApplyStep::VerifyHash } else { ApplyStep::Failed(message_of(outcome)) },
        ApplyStep::VerifyHash => if !ok {
            ApplyStep::Failed(message_of(outcome))
        } else if plan.installer {
            ApplyStep::BackupBinary
        } else if download_is_zip(plan) {
            ApplyStep::ExtractAndReplace
        } else {
            ApplyStep::BackupBinary
        },
        ApplyStep::BackupBinary => if !ok {
            ApplyStep::Failed(message_of(outcome))
        } else if plan.installer {
            ApplyStep::RunInstaller
        } else {
            ApplyStep::StageAndReplace
        },
        ApplyStep::RunInstaller => match outcome {
            StepResult::Done => ApplyStep::VerifyInstall,
            StepResult::Rejected(m) => ApplyStep::Rollback(to_owned_string(m.as_str())),
            StepResult::Error(m) => ApplyStep::Failed(to_owned_string(m.as_str())),
        },
        ApplyStep::VerifyInstall => if ok {
            ApplyStep::RemoveDownload
        } else {
            ApplyStep::Rollback(message_of(outcome))
        },
        ApplyStep::Rollback(m) => if ok {
            ApplyStep::Failed(to_owned_string(m.as_str()))
        } else {
            ApplyStep::Failed(message_of(outcome))
        },
        ApplyStep::ExtractAndReplace => if ok { ApplyStep::RemoveDownload } else { ApplyStep::Failed(message_of(outcome)) },
        ApplyStep::StageAndReplace => if ok { ApplyStep::RemoveDownload } else { ApplyStep::Failed(message_of(outcome)) },
        ApplyStep::RemoveDownload => ApplyStep::CleanupBackups,
        ApplyStep::CleanupBackups => ApplyStep::Done,
        ApplyStep::Done => ApplyStep::Done,
        ApplyStep::Failed(m) => ApplyStep::Failed(to_owned_string(m.as_str())),
    }
}

/// A step that changes the installed binary.
pub open spec fn installs(s: ApplyStepView) -> bool {
    s is BackupBinary || s is RunInstaller || s is ExtractAndReplace || s is StageAndReplace
}

/// The steps that come only after a successful hash check.
pub open spec fn after_hash_check(s: ApplyStepView) -> bool {
    s is BackupBinary || s is RunInstaller || s is VerifyInstall || s is Rollback || s is ExtractAndReplace
        || s is StageAndReplace || s is RemoveDownload || s is CleanupBackups || s is Done
}

/// A run of the steps from the start: each step is the one that follows
/// the previous step and its result.
pub open spec fn is_run(steps: Seq<ApplyStepView>, results: Seq<StepResultView>, plan: PlanView) -> bool {
    &&& steps.len() > 0
    &&& results.len() + 1 >= steps.len()
    &&& steps[0] == ApplyStepView::Start
    &&& forall|i: int| 0 < i < steps.len()
        ==> #[trigger] steps[i] == apply_step_spec(steps[i - 1], results[i - 1], plan)
}

/// Only a successful hash check leads into the steps after it.
proof fn lemma_step_into_checked(last: ApplyStepView, outcome: StepResultView, plan: PlanView)
    ensures
        after_hash_check(apply_step_spec(last, outcome, plan)) ==> after_hash_check(last)
            || (last == ApplyStepView::VerifyHash && outcome == StepResultView::Done),
{
}

/// In every run of the steps, a step that installs anything (backup,
/// installer, extraction, replacement), and every later one up to `Done`,
/// comes after the downloaded file passed its SHA-256 check.
pub proof fn lemma_no_replace_before_verified(
    steps: Seq<ApplyStepView>,
    results: Seq<StepResultView>,
    plan: PlanView,
    j: int,
)
    requires
        is_run(steps, results, plan),
        0 <= j < steps.len(),
        after_hash_check(steps[j]),
    ensures
        exists|i: int| 0 <= i < j && steps[i] == ApplyStepView::VerifyHash && results[i] == StepResultView::Done,
    decreases j,
{
    assert(j > 0);
    assert(steps[j] == apply_step_spec(steps[j - 1], results[j - 1], plan));
    lemma_step_into_checked(steps[j - 1], results[j - 1], plan);
    if after_hash_check(steps[j - 1]) {
        lemma_no_replace_before_verified(steps, results, plan, j - 1);
    } else {
        assert(steps[j - 1] == ApplyStepView::VerifyHash && results[j - 1] == StepResultView::Done);
    }
}

/// A failed installer or post-install check rolls back, and a rollback
/// always ends the update as failed, never as done.
pub proof fn lemma_failed_install_rolls_back(outcome: StepResultView, m: Seq<char>, plan: PlanView)
    ensures
        apply_step_spec(ApplyStepView::RunInstaller, StepResultView::Rejected(m), plan) == ApplyStepView::Rollback(m),
        !(outcome is Done) ==> apply_step_spec(ApplyStepView::VerifyInstall, outcome, plan)
            == ApplyStepView::Rollback(result_message(outcome)),
        apply_step_spec(ApplyStepView::Rollback(m), outcome, plan) is Failed,
{
}

/// At most how many steps are left before the update ends.
pub open spec fn apply_steps_left(s: ApplyStepView) -> nat {
    match s {
        ApplyStepView::Start => 10,
        ApplyStepView::Download => 9,
        ApplyStepView::VerifyHash => 8,
        ApplyStepView::BackupBinary => 7,
        ApplyStepView::RunInstaller => 6,
        ApplyStepView::VerifyInstall => 5,
        ApplyStepView::ExtractAndReplace => 4,
        ApplyStepView::StageAndReplace => 4,
        ApplyStepView::Rollback(_) => 3,
        ApplyStepView::RemoveDownload => 2,
        ApplyStepView::CleanupBackups => 1,
        ApplyStepView::Done => 0,
        ApplyStepView::Failed(_) => 0,
    }
}

/// Every step brings the update closer to its end, whatever the outcome,
/// and `Done` is reached only through the cleanup of old backups.
pub proof fn lemma_apply_progress(last: ApplyStepView, outcome: StepResultView, plan: PlanView)
    ensures
        !(last is Done || last is Failed) ==> apply_steps_left(apply_step_spec(last, outcome, plan)) < apply_steps_left(last),
        apply_step_spec(last, outcome, plan) is Done ==> (last is CleanupBackups || last is Done),
{
}

} // verus!
