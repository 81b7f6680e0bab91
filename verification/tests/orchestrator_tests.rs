use nvim_updater::error::{ErrorKind, UpdateError};
use nvim_updater::feed::ReleaseInfo;
use nvim_updater::orchestrator::{
    decide, exit_code, has_prior_install, join_fetches, Orchestrator, Outcome, Plan, RunAction,
    RunEvent, RunPhase,
};
use nvim_updater::store::VersionStore;
use nvim_updater::version::Version;

const MARKER: &str = "/opt/neovim/current_version";
const URL: &str = "https://example.com/nvim.appimage";

fn version(text: &str) -> Version {
    Version::parse(text).unwrap()
}

fn release(text: &str) -> ReleaseInfo {
    ReleaseInfo { version: version(text), download_url: URL.to_string() }
}

fn fetched(current: &str, latest: &str) -> RunEvent {
    RunEvent::Fetched { current: Ok(version(current)), latest: Ok(release(latest)) }
}

fn all_events() -> Vec<RunEvent> {
    vec![
        fetched("1.0.0", "1.0.0"),
        RunEvent::Installed,
        RunEvent::InstallFailed(UpdateError::new(ErrorKind::Io, "x")),
        RunEvent::MarkerWritten,
        RunEvent::MarkerWriteFailed { cause: String::new() },
    ]
}

fn accepts_nothing(run: &Orchestrator) {
    for event in all_events() {
        assert!(!run.accepts(&event), "{:?}", event);
    }
}

#[test]
fn prior_install_needs_both_files() {
    assert!(has_prior_install(true, true));
    assert!(!has_prior_install(true, false));
    assert!(!has_prior_install(false, true));
    assert!(!has_prior_install(false, false));
}

#[test]
fn decide_goes_by_the_order_of_the_versions() {
    assert_eq!(decide(&version("1.2.0"), &version("1.2.0")).unwrap(), Plan::UpToDate);
    assert_eq!(decide(&version("1.2.0"), &version("1.3.0")).unwrap(), Plan::Upgrade);
    assert_eq!(decide(&version("0.0.0"), &version("0.0.1")).unwrap(), Plan::Upgrade);
    assert_eq!(decide(&version("1.3.0-rc.1"), &version("1.3.0")).unwrap(), Plan::Upgrade);
    assert_eq!(decide(&version("1.3.0"), &version("1.3.0+build")).unwrap(), Plan::Upgrade);
    let e = decide(&version("1.3.0"), &version("1.2.0")).unwrap_err();
    assert_eq!(e.kind(), ErrorKind::InconsistentState);
    assert_eq!(e.message, "How did you get a newer version than the latest?");
    assert_eq!(decide(&version("1.3.0"), &version("1.3.0-rc.1")).unwrap_err().kind(), ErrorKind::InconsistentState);
}

#[test]
fn up_to_date_run_installs_nothing_and_writes_no_marker() {
    let mut run = Orchestrator::new(MARKER);
    assert_eq!(run.phase(), RunPhase::Fetching);
    let action = run.step(fetched("1.2.0", "1.2.0"));
    assert_eq!(action, RunAction::FinishUpToDate { version: Version::new(1, 2, 0) });
    assert_eq!(run.phase(), RunPhase::UpToDate);
    accepts_nothing(&run);
}

#[test]
fn upgrade_run_installs_from_the_url_and_records_the_latest() {
    let mut store = VersionStore::holding(MARKER, "1.2.0");
    let mut run = Orchestrator::new(MARKER);
    let current = store.read_current(true);
    let action = run.step(RunEvent::Fetched { current, latest: Ok(release("1.3.0")) });
    assert_eq!(action, RunAction::Install { version: Version::new(1, 3, 0), url: URL.to_string() });
    assert_eq!(run.phase(), RunPhase::Installing);
    assert!(!run.accepts(&RunEvent::MarkerWritten));
    assert_eq!(store.marker(), Some("1.2.0"));
    let action = run.step(RunEvent::Installed);
    assert_eq!(action, RunAction::Record { version: Version::new(1, 3, 0) });
    assert_eq!(run.phase(), RunPhase::Recording);
    if let RunAction::Record { version } = action {
        store.write_current(&version);
    }
    assert_eq!(store.marker(), Some("1.3.0"));
    assert_eq!(run.step(RunEvent::MarkerWritten), RunAction::FinishUpgraded);
    assert_eq!(run.phase(), RunPhase::Upgraded);
    accepts_nothing(&run);
    assert_eq!(store.read_current(true).unwrap(), Version::new(1, 3, 0));
}

#[test]
fn first_installation_upgrades_from_zero() {
    let store = VersionStore::absent(MARKER);
    let mut run = Orchestrator::new(MARKER);
    let current = store.read_current(has_prior_install(false, false));
    let action = run.step(RunEvent::Fetched { current, latest: Ok(release("0.9.2")) });
    assert_eq!(action, RunAction::Install { version: Version::new(0, 9, 2), url: URL.to_string() });
}

#[test]
fn inconsistent_run_fails_and_touches_nothing() {
    let mut run = Orchestrator::new(MARKER);
    let action = run.step(fetched("1.3.0", "1.2.0"));
    match action {
        RunAction::Fail(e) => {
            assert_eq!(e.kind(), ErrorKind::InconsistentState);
            assert_eq!(e.render(), "How did you get a newer version than the latest?");
        }
        other => panic!("{:?}", other),
    }
    assert_eq!(run.phase(), RunPhase::Failed);
    accepts_nothing(&run);
}

#[test]
fn feed_failure_discards_the_version_that_was_read() {
    let feed_error = || UpdateError::new(ErrorKind::Network, "JSON Request Failed");
    let mut run = Orchestrator::new(MARKER);
    let action = run.step(RunEvent::Fetched { current: Ok(version("1.2.0")), latest: Err(feed_error()) });
    assert_eq!(action, RunAction::Fail(feed_error()));
    assert_eq!(run.phase(), RunPhase::Failed);
    accepts_nothing(&run);
    let mut run = Orchestrator::new(MARKER);
    let store_error = UpdateError::new(ErrorKind::Parse, "Failed to parse current nvim version");
    let action = run.step(RunEvent::Fetched { current: Err(store_error), latest: Err(feed_error()) });
    assert_eq!(action, RunAction::Fail(feed_error()));
}

#[test]
fn store_failure_fails_the_run() {
    let store_error = || UpdateError::new(ErrorKind::Parse, "Failed to parse current nvim version");
    let mut run = Orchestrator::new(MARKER);
    let action = run.step(RunEvent::Fetched { current: Err(store_error()), latest: Ok(release("1.3.0")) });
    assert_eq!(action, RunAction::Fail(store_error()));
    assert_eq!(run.phase(), RunPhase::Failed);
}

#[test]
fn join_fetches_needs_both() {
    let feed_error = || UpdateError::new(ErrorKind::Decode, "JSON Conversion Failed");
    let store_error = || UpdateError::new(ErrorKind::Io, "Failed to access");
    assert_eq!(join_fetches(Ok(version("1.0.0")), Ok(release("1.1.0"))), Ok((version("1.0.0"), release("1.1.0"))));
    assert_eq!(join_fetches(Ok(version("1.0.0")), Err(feed_error())), Err(feed_error()));
    assert_eq!(join_fetches(Err(store_error()), Ok(release("1.1.0"))), Err(store_error()));
    assert_eq!(join_fetches(Err(store_error()), Err(feed_error())), Err(feed_error()));
}

#[test]
fn failed_installation_writes_no_marker() {
    let mut run = Orchestrator::new(MARKER);
    run.step(fetched("1.2.0", "1.3.0"));
    let cause = UpdateError::new(ErrorKind::Network, "Error while downloading");
    let action = run.step(RunEvent::InstallFailed(UpdateError::new(ErrorKind::Network, "Error while downloading")));
    assert_eq!(action, RunAction::Fail(cause));
    assert_eq!(run.phase(), RunPhase::Failed);
    accepts_nothing(&run);
}

#[test]
fn marker_that_cannot_be_written_is_an_io_error() {
    let mut run = Orchestrator::new(MARKER);
    run.step(fetched("1.2.0", "1.3.0"));
    run.step(RunEvent::Installed);
    match run.step(RunEvent::MarkerWriteFailed { cause: "read-only file system".to_string() }) {
        RunAction::Fail(e) => {
            assert_eq!(e.kind(), ErrorKind::Io);
            assert_eq!(
                e.render(),
                "Failed to write new version to '/opt/neovim/current_version': read-only file system"
            );
        }
        other => panic!("{:?}", other),
    }
    assert_eq!(run.phase(), RunPhase::Failed);
}

#[test]
fn run_accepts_what_its_phase_waits_for() {
    let mut run = Orchestrator::new(MARKER);
    let accepted = |run: &Orchestrator| -> Vec<bool> { all_events().iter().map(|e| run.accepts(e)).collect() };
    assert_eq!(accepted(&run), vec![true, false, false, false, false]);
    run.step(fetched("1.2.0", "1.3.0"));
    assert_eq!(accepted(&run), vec![false, true, true, false, false]);
    run.step(RunEvent::Installed);
    assert_eq!(accepted(&run), vec![false, false, false, true, true]);
}

#[test]
fn exit_code_is_zero_unless_the_run_failed() {
    assert_eq!(exit_code(&Ok(Outcome::UpToDate)), 0);
    assert_eq!(exit_code(&Ok(Outcome::Upgraded)), 0);
    assert_eq!(exit_code(&Err(UpdateError::new(ErrorKind::Io, "x"))), 1);
}
