use ness_relay::update::apply::{download_is_zip, next_apply_step, ApplyStep, StepResult};
use ness_relay::update::updater::DownloadPlan;

fn plan(url: &str, installer: bool) -> DownloadPlan {
    DownloadPlan { url: url.to_string(), sha256: "ab".repeat(32), installer }
}

fn run(p: &DownloadPlan, results: &[StepResult]) -> Vec<ApplyStep> {
    let mut steps = vec![ApplyStep::Start];
    let mut last = ApplyStep::Start;
    let mut outcome = StepResult::Done;
    let mut i = 0;
    loop {
        last = next_apply_step(&last, &outcome, p);
        steps.push(last.clone());
        if matches!(last, ApplyStep::Done | ApplyStep::Failed(_)) {
            return steps;
        }
        outcome = results.get(i).cloned().unwrap_or(StepResult::Done);
        i += 1;
    }
}

#[test]
fn installer_release_runs_the_installer_after_the_hash_check() {
    let p = plan("https://example.com/install.sh", true);
    assert_eq!(
        run(&p, &[]),
        vec![
            ApplyStep::Start,
            ApplyStep::Download,
            ApplyStep::VerifyHash,
            ApplyStep::BackupBinary,
            ApplyStep::RunInstaller,
            ApplyStep::VerifyInstall,
            ApplyStep::RemoveDownload,
            ApplyStep::CleanupBackups,
            ApplyStep::Done,
        ]
    );
}

#[test]
fn failing_installer_rolls_back() {
    let p = plan("https://example.com/install.sh", true);
    let msg = "Instalador falló con código 3; se aplicó rollback".to_string();
    let steps = run(&p, &[StepResult::Done, StepResult::Done, StepResult::Done, StepResult::Rejected(msg.clone())]);
    assert_eq!(steps[steps.len() - 2], ApplyStep::Rollback(msg.clone()));
    assert_eq!(steps[steps.len() - 1], ApplyStep::Failed(msg));
    // a post-install check that fails rolls back too
    let m2 = "Verificación post-instalación falló; rollback aplicado".to_string();
    assert_eq!(
        next_apply_step(&ApplyStep::VerifyInstall, &StepResult::Rejected(m2.clone()), &p),
        ApplyStep::Rollback(m2.clone())
    );
    // an installer that cannot be started fails without a rollback
    assert_eq!(
        next_apply_step(&ApplyStep::RunInstaller, &StepResult::Error("no bash".to_string()), &p),
        ApplyStep::Failed("no bash".to_string())
    );
}

#[test]
fn bad_hash_stops_before_anything_is_replaced() {
    for p in [plan("https://example.com/a.zip", false), plan("https://example.com/bin", false), plan("https://x/i.sh", true)] {
        let steps = run(&p, &[StepResult::Done, StepResult::Error("Hash SHA-256 inválido".to_string())]);
        assert_eq!(
            steps,
            vec![
                ApplyStep::Start,
                ApplyStep::Download,
                ApplyStep::VerifyHash,
                ApplyStep::Failed("Hash SHA-256 inválido".to_string())
            ]
        );
    }
}

#[test]
fn archives_are_extracted_and_binaries_staged() {
    let zip = plan("https://example.com/Relay.ZIP", false);
    assert!(download_is_zip(&zip));
    assert_eq!(next_apply_step(&ApplyStep::VerifyHash, &StepResult::Done, &zip), ApplyStep::ExtractAndReplace);
    let bin = plan("https://example.com/ness-relay-x86_64", false);
    assert!(!download_is_zip(&bin));
    let steps = run(&bin, &[]);
    assert_eq!(steps[3], ApplyStep::BackupBinary);
    assert_eq!(steps[4], ApplyStep::StageAndReplace);
    assert_eq!(steps.last(), Some(&ApplyStep::Done));
    // a download that fails ends the update with its message
    assert_eq!(
        next_apply_step(&ApplyStep::Download, &StepResult::Error("HTTP 404".to_string()), &bin),
        ApplyStep::Failed("HTTP 404".to_string())
    );
}
