use crate::error::{failure, failure_of, quoted, ErrorFrame, ErrorKind, UpdateError};
use crate::feed::{ReleaseInfo, ReleaseModel};
use crate::precedence::{version_order, VersionOrder};
use crate::version::{Version, VersionModel};
use vstd::prelude::*;
use vstd::string::*;

verus! {

/// What is said where the installed version is newer than the latest release.
pub const NEWER_THAN_LATEST: &'static str = "How did you get a newer version than the latest?";

/// Whether a prior installation is plausible: both the artifact and the
/// marker are there.
pub fn has_prior_install(artifact_exists: bool, marker_exists: bool) -> (plausible: bool)
    ensures
        plausible == (artifact_exists && marker_exists),
{
    artifact_exists && marker_exists
}

/// What is to be done about the latest release.
#[derive(Clone, Copy, Debug, PartialEq, Eq, Structural)]
pub enum Plan {
    /// Nothing: what is installed is the latest.
    UpToDate,
    /// The latest is to be installed.
    Upgrade,
}

/// What is to be done where `current` is installed and `latest` is the latest
/// release; nothing can be done where the latest is older than what is
/// installed.
pub open spec fn plan_for(current: VersionModel, latest: VersionModel) -> Option<Plan> {
    match version_order(latest, current) {
        VersionOrder::Same => Some(Plan::UpToDate),
        VersionOrder::Newer => Some(Plan::Upgrade),
        VersionOrder::Older => None,
    }
}

/// The chain of the error for an installed version that is newer than the
/// latest release.
pub open spec fn inconsistent() -> Seq<ErrorFrame> {
    seq![ErrorFrame { kind: ErrorKind::InconsistentState, message: NEWER_THAN_LATEST@ }]
}

/// Decides what is to be done where `current` is installed and `latest` is
/// the latest release.
pub fn decide(current: &Version, latest: &Version) -> (plan: Result<Plan, UpdateError>)
    ensures
        match plan {
            Ok(plan) => plan_for(current@, latest@) == Some(plan),
            Err(e) => plan_for(current@, latest@) is None && e@ == inconsistent(),
        },
{
    match latest.order(current) {
        VersionOrder::Same => Ok(Plan::UpToDate),
        VersionOrder::Newer => Ok(Plan::Upgrade),
        VersionOrder::Older => Err(
            UpdateError::new(ErrorKind::InconsistentState, NEWER_THAN_LATEST),
        ),
    }
}

/// Puts together what the two concurrent queries came to. Both have to have
/// succeeded. The error of the feed goes first: where the feed failed, what
/// the store gave, a version or an error, is dropped.
pub fn join_fetches(
    current: Result<Version, UpdateError>,
    latest: Result<ReleaseInfo, UpdateError>,
) -> (both: Result<(Version, ReleaseInfo), UpdateError>)
    ensures
        match (current, latest) {
            (_, Err(e)) => both == Err::<(Version, ReleaseInfo), UpdateError>(e),
            (Err(e), Ok(_)) => both == Err::<(Version, ReleaseInfo), UpdateError>(e),
            (Ok(c), Ok(l)) => both == Ok::<(Version, ReleaseInfo), UpdateError>((c, l)),
        },
{
    match latest {
        Err(e) => Err(e),
        Ok(l) => match current {
            Err(e) => Err(e),
            Ok(c) => Ok((c, l)),
        },
    }
}

/// Where a run stands.
#[derive(Clone, Copy, Debug, PartialEq, Eq, Structural)]
pub enum RunPhase {
    /// The current version and the latest release are being fetched.
    Fetching,
    /// The latest release is being installed.
    Installing,
    /// The new version is being recorded in the marker.
    Recording,
    /// The run is over: what is installed was the latest already.
    UpToDate,
    /// The run is over: the latest release is installed and recorded.
    Upgraded,
    /// The run is over: it failed.
    Failed,
}

/// What the driver reports back after it has done what it was asked to.
#[derive(Debug, PartialEq, Eq)]
pub enum RunEvent {
    /// Both queries are over, with what each of them came to.
    Fetched { current: Result<Version, UpdateError>, latest: Result<ReleaseInfo, UpdateError> },
    /// The artifact is installed.
    Installed,
    /// The installation failed.
    InstallFailed(UpdateError),
    /// The marker holds the new version.
    MarkerWritten,
    /// The marker could not be written.
    MarkerWriteFailed { cause: String },
}

/// What the driver is to do next.
#[derive(Debug, PartialEq, Eq)]
pub enum RunAction {
    /// Say that `version` is being downloaded, and install the artifact from
    /// `url`.
    Install { version: Version, url: String },
    /// Record `version` in the marker.
    Record { version: Version },
    /// Say that `version` is up to date, and end.
    FinishUpToDate { version: Version },
    /// Say that all is done, and end.
    FinishUpgraded,
    /// End with this error.
    Fail(UpdateError),
}

/// An action of a run, as contracts see it.
pub enum RunActionModel {
    Install { version: VersionModel, url: Seq<char> },
    Record { version: VersionModel },
    FinishUpToDate { version: VersionModel },
    FinishUpgraded,
    Fail(Seq<ErrorFrame>),
}

impl View for RunAction {
    type V = RunActionModel;

    open spec fn view(&self) -> RunActionModel {
        match self {
            RunAction::Install { version, url } => RunActionModel::Install {
                version: version@,
                url: url@,
            },
            RunAction::Record { version } => RunActionModel::Record { version: version@ },
            RunAction::FinishUpToDate { version } => RunActionModel::FinishUpToDate {
                version: version@,
            },
            RunAction::FinishUpgraded => RunActionModel::FinishUpgraded,
            RunAction::Fail(e) => RunActionModel::Fail(e@),
        }
    }
}

/// `"Failed to write new version to '<path>'"`
pub open spec fn marker_write_failure(path: Seq<char>) -> Seq<char> {
    "Failed to write new version to '"@ + path + "'"@
}

/// A run, as contracts see it.
pub struct RunModel {
    pub phase: RunPhase,
    /// Where the marker is kept.
    pub marker_path: Seq<char>,
    /// The release that is being installed or recorded.
    pub release: Option<ReleaseModel>,
}

impl RunModel {
    /// A run of which nothing has happened yet.
    pub open spec fn initial(marker_path: Seq<char>) -> RunModel {
        RunModel { phase: RunPhase::Fetching, marker_path, release: None }
    }

    /// While a release is being installed or recorded, the run knows which.
    pub open spec fn wf(self) -> bool {
        self.phase is Installing || self.phase is Recording ==> self.release is Some
    }

    /// The events that can follow in this state.
    pub open spec fn accepts(self, event: RunEvent) -> bool {
        match self.phase {
            RunPhase::Fetching => event is Fetched,
            RunPhase::Installing => event is Installed || event is InstallFailed,
            RunPhase::Recording => event is MarkerWritten || event is MarkerWriteFailed,
            RunPhase::UpToDate => false,
            RunPhase::Upgraded => false,
            RunPhase::Failed => false,
        }
    }

    pub open spec fn ended(self, phase: RunPhase) -> RunModel {
        RunModel { phase, release: None, ..self }
    }

    /// The state after both queries are over, and what is to be done next.
    /// Where the feed failed the run fails with the feed's error, whatever
    /// the store gave; else it fails with the store's error, if there is one;
    /// else the two versions decide.
    pub open spec fn fetched(
        self,
        current: Result<Version, UpdateError>,
        latest: Result<ReleaseInfo, UpdateError>,
    ) -> (RunModel, RunActionModel) {
        match (current, latest) {
            (_, Err(e)) => (self.ended(RunPhase::Failed), RunActionModel::Fail(e@)),
            (Err(e), Ok(_)) => (self.ended(RunPhase::Failed), RunActionModel::Fail(e@)),
            (Ok(current), Ok(latest)) => match plan_for(current@, latest.version@) {
                Some(Plan::UpToDate) => (
                    self.ended(RunPhase::UpToDate),
                    RunActionModel::FinishUpToDate { version: current@ },
                ),
                Some(Plan::Upgrade) => (
                    RunModel { phase: RunPhase::Installing, release: Some(latest@), ..self },
                    RunActionModel::Install {
                        version: latest.version@,
                        url: latest.download_url@,
                    },
                ),
                None => (self.ended(RunPhase::Failed), RunActionModel::Fail(inconsistent())),
            },
        }
    }

    /// The state after `event`, and what the driver is to do next.
    pub open spec fn step(self, event: RunEvent) -> (RunModel, RunActionModel) {
        match event {
            RunEvent::Fetched { current, latest } => self.fetched(current, latest),
            RunEvent::Installed => (
                RunModel { phase: RunPhase::Recording, ..self },
                RunActionModel::Record { version: self.release->0.version },
            ),
            RunEvent::InstallFailed(e) => (self.ended(RunPhase::Failed), RunActionModel::Fail(e@)),
            RunEvent::MarkerWritten => (
                self.ended(RunPhase::Upgraded),
                RunActionModel::FinishUpgraded,
            ),
            RunEvent::MarkerWriteFailed { cause } => (
                self.ended(RunPhase::Failed),
                RunActionModel::Fail(
                    failure(ErrorKind::Io, marker_write_failure(self.marker_path), cause@),
                ),
            ),
        }
    }
}

/// The orchestrator of a run: it is told what happened, and says what is to
/// be done next. The driver begins by fetching the current version and the
/// latest release, both at once, and reports what the two came to.
#[derive(Debug, PartialEq, Eq)]
pub struct Orchestrator {
    phase: RunPhase,
    marker_path: String,
    release: Option<ReleaseInfo>,
}

impl View for Orchestrator {
    type V = RunModel;

    closed spec fn view(&self) -> RunModel {
        RunModel {
            phase: self.phase,
            marker_path: self.marker_path@,
            release: match self.release {
                Some(release) => Some(release@),
                None => None,
            },
        }
    }
}

impl Orchestrator {
    /// A run of which nothing has happened yet.
    pub fn new(marker_path: &str) -> (run: Orchestrator)
        ensures
            run@ == RunModel::initial(marker_path@),
            run@.wf(),
    {
        Orchestrator {
            phase: RunPhase::Fetching,
            marker_path: String::from_str(marker_path),
            release: None,
        }
    }

    pub fn phase(&self) -> (phase: RunPhase)
        ensures
            phase == self@.phase,
    {
        self.phase
    }

    /// Whether `event` can follow in this state.
    pub fn accepts(&self, event: &RunEvent) -> (yes: bool)
        ensures
            yes == self@.accepts(*event),
    {
        match self.phase {
            RunPhase::Fetching => match event {
                RunEvent::Fetched { .. } => true,
                _ => false,
            },
            RunPhase::Installing => match event {
                RunEvent::Installed => true,
                RunEvent::InstallFailed(_) => true,
                _ => false,
            },
            RunPhase::Recording => match event {
                RunEvent::MarkerWritten => true,
                RunEvent::MarkerWriteFailed { .. } => true,
                _ => false,
            },
            RunPhase::UpToDate => false,
            RunPhase::Upgraded => false,
            RunPhase::Failed => false,
        }
    }

    /// Takes note of `event` and says what the driver is to do next.
    pub fn step(&mut self, event: RunEvent) -> (action: RunAction)
        requires
            old(self)@.wf(),
            old(self)@.accepts(event),
        ensures
            (final(self)@, action@) == old(self)@.step(event),
            final(self)@.wf(),
    {
        match event {
            RunEvent::Fetched { current, latest } => {
                match crate::orchestrator::join_fetches(current, latest) {
                    Err(e) => {
                        self.phase = RunPhase::Failed;
                        self.release = None;
                        RunAction::Fail(e)
                    },
                    Ok((current, latest)) => match decide(&current, &latest.version) {
                        Ok(Plan::UpToDate) => {
                            self.phase = RunPhase::UpToDate;
                            self.release = None;
                            RunAction::FinishUpToDate { version: current }
                        },
                        Ok(Plan::Upgrade) => {
                            let version = latest.version.duplicate();
                            let url = latest.download_url.clone();
                            self.phase = RunPhase::Installing;
                            self.release = Some(latest);
                            RunAction::Install { version, url }
                        },
                        Err(e) => {
                            self.phase = RunPhase::Failed;
                            self.release = None;
                            RunAction::Fail(e)
                        },
                    },
                }
            },
            RunEvent::Installed => {
                let version = self.release.as_ref().unwrap().version.duplicate();
                self.phase = RunPhase::Recording;
                RunAction::Record { version }
            },
            RunEvent::InstallFailed(e) => {
                self.phase = RunPhase::Failed;
                self.release = None;
                RunAction::Fail(e)
            },
            RunEvent::MarkerWritten => {
                self.phase = RunPhase::Upgraded;
                self.release = None;
                RunAction::FinishUpgraded
            },
            RunEvent::MarkerWriteFailed { cause } => {
                let message = quoted(
                    "Failed to write new version to '",
                    self.marker_path.as_str(),
                );
                self.phase = RunPhase::Failed;
                self.release = None;
                RunAction::Fail(failure_of(ErrorKind::Io, message.as_str(), cause.as_str()))
            },
        }
    }
}

/// How a run ended, where it did not fail.
#[derive(Clone, Copy, Debug, PartialEq, Eq, Structural)]
pub enum Outcome {
    /// What is installed was the latest already.
    UpToDate,
    /// The latest release is installed and recorded.
    Upgraded,
}

/// The exit code of the process: 0 where the run did not fail, 1 where it did.
pub fn exit_code(result: &Result<Outcome, UpdateError>) -> (code: u8)
    ensures
        code == (if result is Ok {
            0u8
        } else {
            1u8
        }),
{
    match result {
        Ok(_) => 0,
        Err(_) => 1,
    }
}

/// No step breaks what holds of every run, and none moves the marker.
pub proof fn lemma_step_preserves_wf(m: RunModel, event: RunEvent)
    requires
        m.wf(),
        m.accepts(event),
    ensures
        m.step(event).0.wf(),
        m.step(event).0.marker_path == m.marker_path,
{
}

/// A run that has ended takes no further event: nothing is installed and
/// nothing is recorded after it.
pub proof fn lemma_ended_run_is_over(m: RunModel, event: RunEvent)
    requires
        m.phase is UpToDate || m.phase is Upgraded || m.phase is Failed,
    ensures
        !m.accepts(event),
{
}

/// Where the feed failed, the run fails with the feed's error and is over,
/// whatever the store gave.
pub proof fn lemma_feed_failure_wins(
    m: RunModel,
    current: Result<Version, UpdateError>,
    error: UpdateError,
)
    requires
        m.phase is Fetching,
    ensures
        m.accepts(RunEvent::Fetched { current, latest: Err(error) }),
        m.step(RunEvent::Fetched { current, latest: Err(error) }) == (
            m.ended(RunPhase::Failed),
            RunActionModel::Fail(error@),
        ),
{
}

/// Where what is installed is the latest, the run ends at once: nothing is
/// installed and the marker is not touched.
pub proof fn lemma_up_to_date_run(m: RunModel, current: Version, latest: ReleaseInfo)
    requires
        m.phase is Fetching,
        version_order(latest.version@, current@) is Same,
    ensures
        m.step(RunEvent::Fetched { current: Ok(current), latest: Ok(latest) }) == (
            m.ended(RunPhase::UpToDate),
            RunActionModel::FinishUpToDate { version: current@ },
        ),
{
}

/// Where the latest is older than what is installed, the run fails at once:
/// nothing is installed and the marker is not touched.
pub proof fn lemma_inconsistent_run(m: RunModel, current: Version, latest: ReleaseInfo)
    requires
        m.phase is Fetching,
        version_order(latest.version@, current@) is Older,
    ensures
        m.step(RunEvent::Fetched { current: Ok(current), latest: Ok(latest) }) == (
            m.ended(RunPhase::Failed),
            RunActionModel::Fail(inconsistent()),
        ),
{
}

/// Where the latest is newer than what is installed and nothing fails, the
/// artifact is installed from the URL of the latest release, then the version
/// of the latest release is recorded, then the run ends.
pub proof fn lemma_upgrade_run(m: RunModel, current: Version, latest: ReleaseInfo)
    requires
        m.phase is Fetching,
        version_order(latest.version@, current@) is Newer,
    ensures
        ({
            let (installing, first) = m.step(
                RunEvent::Fetched { current: Ok(current), latest: Ok(latest) },
            );
            let (recording, second) = installing.step(RunEvent::Installed);
            let (end, third) = recording.step(RunEvent::MarkerWritten);
            &&& first == RunActionModel::Install {
                version: latest.version@,
                url: latest.download_url@,
            }
            &&& installing.accepts(RunEvent::Installed)
            &&& second == RunActionModel::Record { version: latest.version@ }
            &&& recording.accepts(RunEvent::MarkerWritten)
            &&& third == RunActionModel::FinishUpgraded
            &&& end.phase is Upgraded
        }),
{
}

/// The marker is written only once the artifact is installed: the driver is
/// asked to record a version only in answer to the news that the installation
/// has succeeded, and the version is that of the release that was installed.
pub proof fn lemma_record_follows_install(m: RunModel, event: RunEvent)
    requires
        m.wf(),
        m.accepts(event),
        m.step(event).1 is Record,
    ensures
        m.phase is Installing,
        event is Installed,
        m.step(event).1 == (RunActionModel::Record { version: m.release->0.version }),
{
}

/// An installation begins only in answer to a latest release that is newer
/// than what is installed.
pub proof fn lemma_install_follows_newer(m: RunModel, event: RunEvent)
    requires
        m.wf(),
        m.accepts(event),
        m.step(event).1 is Install,
    ensures
        event matches RunEvent::Fetched { current: Ok(current), latest: Ok(latest) }
            && version_order(latest.version@, current@) is Newer && m.step(event).0.release
            == Some(latest@),
{
}

} // verus!
