use nextest_runner::catalog::{classify_listing, DiscoveryError, ListingError};
use nextest_runner::driver::{find_binary, run_selection_serial};
use nextest_runner::invoke::CapturedRun;
use nextest_runner::outcome::RunOutcome;
use nextest_runner::filter::{RunIgnored, TestFilterBuilder};
use nextest_runner::model::{TestBinary, TestCase, TestCatalog};

fn binary(path: &str, id: &str) -> TestBinary {
    TestBinary { path: path.to_string(), binary_id: id.to_string(), cwd: None }
}

fn case(binary_id: &str, name: &str) -> TestCase {
    TestCase { binary_id: binary_id.to_string(), name: name.to_string(), ignored: false }
}

#[test]
fn discover_accepts_silent_binary_as_empty_listing() {
    // `true` ignores the listing arguments, prints nothing and exits 0:
    // an empty but well-formed listing
    let binaries = vec![binary("true", "empty-bin")];
    let catalog = TestCatalog::discover(&binaries).unwrap();
    assert_eq!(catalog.len(), 0);
}

#[test]
fn discover_rejects_unparsable_listing() {
    // `echo` prints the listing arguments back, which follow no protocol;
    // this would pass if the captured child output were not really read
    let binaries = vec![binary("echo", "echo-bin")];
    let err = TestCatalog::discover(&binaries).unwrap_err();
    assert!(matches!(err, DiscoveryError::Unparsable { ref binary_id } if binary_id.as_str() == "echo-bin"));
}

#[test]
fn discover_reports_launch_failure() {
    let binaries = vec![binary("/this/binary/does/not/exist", "ghost-bin")];
    let err = TestCatalog::discover(&binaries).unwrap_err();
    assert!(matches!(err, DiscoveryError::ListFailed { ref binary_id, .. } if binary_id.as_str() == "ghost-bin"));
}

#[test]
fn discover_reports_unsuccessful_list_exit() {
    // `false` exits 1 in list mode
    let binaries = vec![binary("false", "false-bin")];
    let err = TestCatalog::discover(&binaries).unwrap_err();
    assert!(matches!(
        err,
        DiscoveryError::ListExit { ref binary_id, exit_code: Some(1) } if binary_id.as_str() == "false-bin"
    ));
}

#[test]
fn discover_aborts_whole_catalog_on_one_failure() {
    // no partial catalogs: the healthy first binary does not save the run
    let binaries = vec![binary("true", "ok-bin"), binary("false", "broken-bin")];
    let err = TestCatalog::discover(&binaries).unwrap_err();
    assert!(matches!(err, DiscoveryError::ListExit { ref binary_id, .. } if binary_id.as_str() == "broken-bin"));
}

#[test]
fn serial_run_passes_and_fails_by_exit_code() {
    let binaries = vec![binary("true", "pass-bin"), binary("false", "fail-bin")];
    let catalog = TestCatalog {
        cases: vec![case("pass-bin", "a"), case("fail-bin", "b"), case("pass-bin", "c")],
    };
    let filter = TestFilterBuilder::new(RunIgnored::Default, None, vec![]);
    let selection = filter.select(&catalog);
    let report = run_selection_serial(&binaries, &catalog, &selection);
    assert_eq!(report.stats.passed, 2);
    assert_eq!(report.stats.failed, 1);
    assert_eq!(report.stats.aborted, 0);
    assert_eq!(report.stats.skipped, 0);
    assert_eq!(report.results.len(), 3);
    assert!(!report.stats.is_success());
}

#[test]
fn unknown_binary_fails_case_but_run_continues() {
    let binaries = vec![binary("true", "pass-bin")];
    let catalog = TestCatalog {
        cases: vec![case("no-such-bin", "a"), case("pass-bin", "b")],
    };
    let filter = TestFilterBuilder::new(RunIgnored::Default, None, vec![]);
    let selection = filter.select(&catalog);
    let report = run_selection_serial(&binaries, &catalog, &selection);
    assert_eq!(report.stats.passed, 1);
    assert_eq!(report.stats.failed, 1);
    assert_eq!(
        report.results[0].outcome,
        RunOutcome::Failed { could_not_launch: true, exit_code: None }
    );
    assert!(!report.stats.is_success());
}

#[test]
fn serial_run_counts_skipped_from_selection() {
    let binaries = vec![binary("true", "pass-bin")];
    let catalog = TestCatalog {
        cases: vec![
            case("pass-bin", "alpha"),
            case("pass-bin", "beta"),
            TestCase {
                binary_id: "pass-bin".to_string(),
                name: "gamma".to_string(),
                ignored: true,
            },
        ],
    };
    let filter = TestFilterBuilder::new(RunIgnored::Default, None, vec!["alp".to_string()]);
    let selection = filter.select(&catalog);
    let report = run_selection_serial(&binaries, &catalog, &selection);
    assert_eq!(report.stats.passed, 1);
    assert_eq!(report.stats.skipped, 2);
    assert!(report.stats.is_success());
}

#[test]
fn find_binary_by_identifier() {
    let binaries = vec![binary("true", "a"), binary("false", "b")];
    assert_eq!(find_binary(&binaries, &"b".to_string()), Some(1));
    assert_eq!(find_binary(&binaries, &"c".to_string()), None);
}

#[test]
fn serial_run_records_output_and_duration() {
    // `echo` prints the single-test arguments back and exits 0, so the
    // recorded output must carry the test name: this fails if the captured
    // child output were not really handed through
    let binaries = vec![binary("echo", "echo-bin")];
    let catalog = TestCatalog { cases: vec![case("echo-bin", "hello_case")] };
    let filter = TestFilterBuilder::new(RunIgnored::Default, None, vec![]);
    let selection = filter.select(&catalog);
    let report = run_selection_serial(&binaries, &catalog, &selection);
    assert_eq!(report.stats.passed, 1);
    assert_eq!(report.results.len(), 1);
    let result = &report.results[0];
    assert_eq!(result.outcome, RunOutcome::Passed);
    assert!(result.output.contains("hello_case"));
    assert!(result.duration_ms < 60_000);
}

#[test]
fn listing_classification_bad_exit() {
    let cap = CapturedRun { exit_code: Some(2), stdout: "a: test\n".to_string(), stderr: String::new() };
    assert_eq!(classify_listing(&cap), Err(ListingError::BadExit { exit_code: Some(2) }));
}

#[test]
fn listing_classification_signal_death() {
    let cap = CapturedRun { exit_code: None, stdout: String::new(), stderr: String::new() };
    assert_eq!(classify_listing(&cap), Err(ListingError::BadExit { exit_code: None }));
}

#[test]
fn listing_classification_unparsable() {
    let cap = CapturedRun { exit_code: Some(0), stdout: "junk".to_string(), stderr: String::new() };
    assert_eq!(classify_listing(&cap), Err(ListingError::Unparsable));
}

#[test]
fn listing_classification_parses_names() {
    let cap = CapturedRun {
        exit_code: Some(0),
        stdout: "a: test\nb: test\n".to_string(),
        stderr: String::new(),
    };
    assert_eq!(classify_listing(&cap), Ok(vec!["a".to_string(), "b".to_string()]));
}
