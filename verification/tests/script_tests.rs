use bundle_swap::errors::ApplyError;
use bundle_swap::location::InstallLocation;
use bundle_swap::location::Manifest;
use bundle_swap::script::build_elevated_script;
use bundle_swap::script::interpret_elevated_exit;

#[test]
fn script_chains_the_three_operations_in_order() {
    let script = build_elevated_script(
        "/Applications/Demo.app",
        "/tmp/staging_new",
        "/tmp/staging_old",
    );
    let expected = format!(
        "do shell script \"mv -f '{}' '{}' && mv -f '{}' '{}' && rm -rf '{}'\" \
         with administrator privileges",
        "/Applications/Demo.app",
        "/tmp/staging_old",
        "/tmp/staging_new",
        "/Applications/Demo.app",
        "/tmp/staging_old",
    );
    assert_eq!(script, expected);
}

#[test]
fn script_quotes_paths_with_spaces() {
    let script = build_elevated_script("/Applications/My App.app", "/tmp/a b", "/tmp/c d");
    assert!(script.contains("mv -f '/Applications/My App.app' '/tmp/c d'"));
    assert!(script.contains("&& mv -f '/tmp/a b' '/Applications/My App.app'"));
    assert!(script.contains("&& rm -rf '/tmp/c d'"));
}

#[test]
fn successful_exit_is_success() {
    assert!(interpret_elevated_exit(true, 0).is_ok());
}

#[test]
fn failed_exit_keeps_the_raw_code() {
    let err = interpret_elevated_exit(false, 1).expect_err("non-zero exit must fail");
    assert!(matches!(err, ApplyError::ElevationFailed { exit_code: 1 }));
    let err = interpret_elevated_exit(false, -9).expect_err("a signal exit must fail");
    assert!(matches!(err, ApplyError::ElevationFailed { exit_code: -9 }));
}

#[test]
fn with_manifest_keeps_the_root_and_swaps_the_manifest() {
    let loc = InstallLocation {
        root_dir: String::from("/opt/demo"),
        manifest: Manifest { title: String::from("Demo"), version: String::from("1.2.3") },
    };
    let updated = loc.with_manifest(Manifest {
        title: String::from("Demo"),
        version: String::from("2.0.0"),
    });
    assert_eq!(updated.root_dir, "/opt/demo");
    assert_eq!(updated.manifest.title, "Demo");
    assert_eq!(updated.manifest.version, "2.0.0");
}
