use bundle_swap::engine::Action;
use bundle_swap::engine::Event;
use bundle_swap::engine::SwapEngine;
use bundle_swap::errors::ApplyError;
use bundle_swap::errors::RenameError;
use bundle_swap::errors::RenameErrorKind;
use bundle_swap::location::InstallLocation;
use bundle_swap::location::Manifest;

fn location() -> InstallLocation {
    InstallLocation {
        root_dir: String::from("/Applications/My App.app"),
        manifest: Manifest { title: String::from("My App"), version: String::from("1.0.0") },
    }
}

fn manifest_2_0_0() -> Manifest {
    Manifest { title: String::from("My App"), version: String::from("2.0.0") }
}

fn start() -> (SwapEngine, Action) {
    SwapEngine::new(
        location(),
        manifest_2_0_0(),
        String::from("/tmp/swap_staging_new"),
        String::from("/tmp/swap_staging_old"),
    )
}

fn perm_denied() -> RenameError {
    RenameError {
        kind: RenameErrorKind::PermissionDenied,
        message: String::from("Permission denied (os error 13)"),
    }
}

#[test]
fn successful_run_reports_new_version() {
    let (mut eng, a0) = start();
    assert!(matches!(a0, Action::Extract { ref staging_new } if staging_new == "/tmp/swap_staging_new"));
    let a1 = eng.step(Event::Extracted { outcome: Ok(()) });
    match a1 {
        Action::Swap { root, staging_new, staging_old } => {
            assert_eq!(root, "/Applications/My App.app");
            assert_eq!(staging_new, "/tmp/swap_staging_new");
            assert_eq!(staging_old, "/tmp/swap_staging_old");
        },
        _ => panic!("expected the rename pair after a successful extraction"),
    }
    let a2 = eng.step(Event::Swapped { outcome: Ok(()) });
    match a2 {
        Action::Cleanup { staging_new, staging_old } => {
            assert_eq!(staging_new, "/tmp/swap_staging_new");
            assert_eq!(staging_old, "/tmp/swap_staging_old");
        },
        _ => panic!("expected cleanup of both staging directories after a successful swap"),
    }
    let a3 = eng.step(Event::CleanupDone);
    assert!(matches!(a3, Action::Done));
    let result = eng.finish().expect("a successful swap must report success");
    assert_eq!(result.root_dir, "/Applications/My App.app");
    assert_eq!(result.manifest.version, "2.0.0");
    assert_eq!(result.manifest.title, "My App");
}

#[test]
fn extraction_failure_is_fatal_and_skips_the_swap() {
    let (mut eng, _a0) = start();
    let a1 = eng.step(Event::Extracted {
        outcome: Err(String::from("No space left on device (os error 28)")),
    });
    // straight to cleanup: the root is never renamed, so it stays untouched
    assert!(matches!(a1, Action::Cleanup { .. }));
    let a2 = eng.step(Event::CleanupDone);
    assert!(matches!(a2, Action::Done));
    let err = eng.finish().expect_err("a failed extraction must fail the run");
    assert!(matches!(
        err,
        ApplyError::Extraction { ref message } if message == "No space left on device (os error 28)"
    ));
}

#[test]
fn non_permission_swap_failure_never_prompts() {
    let (mut eng, _a0) = start();
    let _ = eng.step(Event::Extracted { outcome: Ok(()) });
    let a = eng.step(Event::Swapped {
        outcome: Err(RenameError {
            kind: RenameErrorKind::Other,
            message: String::from("No space left on device (os error 28)"),
        }),
    });
    // no consent prompt, no privileged command: cleanup right away
    assert!(matches!(a, Action::Cleanup { .. }));
    let _ = eng.step(Event::CleanupDone);
    let err = eng.finish().expect_err("a non-permission rename failure must fail the run");
    assert!(matches!(
        err,
        ApplyError::SwapFailed { ref message } if message == "No space left on device (os error 28)"
    ));
}

#[test]
fn permission_denial_prompts_with_title_and_version() {
    let (mut eng, _a0) = start();
    let _ = eng.step(Event::Extracted { outcome: Ok(()) });
    let a = eng.step(Event::Swapped { outcome: Err(perm_denied()) });
    match a {
        Action::AskConsent { title, version } => {
            assert_eq!(title, "My App");
            assert_eq!(version, "2.0.0");
        },
        _ => panic!("expected the consent prompt after a permission denial"),
    }
}

#[test]
fn declined_consent_fails_with_elevation_declined() {
    let (mut eng, _a0) = start();
    let _ = eng.step(Event::Extracted { outcome: Ok(()) });
    let _ = eng.step(Event::Swapped { outcome: Err(perm_denied()) });
    let a = eng.step(Event::ConsentAnswered { granted: false });
    // declining skips the privileged command and goes straight to cleanup
    assert!(matches!(a, Action::Cleanup { .. }));
    let _ = eng.step(Event::CleanupDone);
    let err = eng.finish().expect_err("a declined prompt must fail the run");
    assert!(matches!(err, ApplyError::ElevationDeclined));
}

#[test]
fn granted_consent_runs_the_exact_privileged_command() {
    let (mut eng, _a0) = start();
    let _ = eng.step(Event::Extracted { outcome: Ok(()) });
    let _ = eng.step(Event::Swapped { outcome: Err(perm_denied()) });
    let a = eng.step(Event::ConsentAnswered { granted: true });
    match a {
        Action::RunElevated { script } => {
            assert_eq!(
                script,
                "do shell script \"mv -f '/Applications/My App.app' '/tmp/swap_staging_old' \
                 && mv -f '/tmp/swap_staging_new' '/Applications/My App.app' \
                 && rm -rf '/tmp/swap_staging_old'\" with administrator privileges"
            );
        },
        _ => panic!("expected the privileged command after consent"),
    }
}

#[test]
fn elevated_failure_carries_the_exit_code() {
    let (mut eng, _a0) = start();
    let _ = eng.step(Event::Extracted { outcome: Ok(()) });
    let _ = eng.step(Event::Swapped { outcome: Err(perm_denied()) });
    let _ = eng.step(Event::ConsentAnswered { granted: true });
    let a = eng.step(Event::ElevatedDone { exit_ok: false, exit_code: 1 });
    assert!(matches!(a, Action::Cleanup { .. }));
    let _ = eng.step(Event::CleanupDone);
    let err = eng.finish().expect_err("a failed privileged command must fail the run");
    assert!(matches!(err, ApplyError::ElevationFailed { exit_code: 1 }));
}

#[test]
fn elevated_success_completes_the_run() {
    let (mut eng, _a0) = start();
    let _ = eng.step(Event::Extracted { outcome: Ok(()) });
    let _ = eng.step(Event::Swapped { outcome: Err(perm_denied()) });
    let _ = eng.step(Event::ConsentAnswered { granted: true });
    let a = eng.step(Event::ElevatedDone { exit_ok: true, exit_code: 0 });
    assert!(matches!(a, Action::Cleanup { .. }));
    let _ = eng.step(Event::CleanupDone);
    let result = eng.finish().expect("a successful privileged command must report success");
    assert_eq!(result.manifest.version, "2.0.0");
}

#[test]
fn cleanup_of_absent_directories_masks_nothing() {
    // After an extraction failure the staging directories may be partly or
    // wholly absent; the driver removes best-effort, swallows any removal
    // error, and reports CleanupDone either way. The recorded outcome must
    // come through unchanged.
    let (mut eng, _a0) = start();
    let _ = eng.step(Event::Extracted { outcome: Err(String::from("corrupt archive")) });
    let a = eng.step(Event::CleanupDone);
    assert!(matches!(a, Action::Done));
    let err = eng.finish().expect_err("cleanup must not displace the recorded failure");
    assert!(matches!(err, ApplyError::Extraction { ref message } if message == "corrupt archive"));
}
