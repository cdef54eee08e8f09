//! The server locator: decides, between host calls, whether the language
//! server package is present and current, whether to install it, and what to
//! answer the host.

use vstd::prelude::*;
use vstd::string::StringExecFns;

verus! {

/// Relative path of the server entry-point script inside the dependency tree.
pub open spec fn server_path_spec() -> Seq<char> {
    "node_modules/@angular/language-server/index.js"@
}

/// Name of the upstream package that provides the server.
pub open spec fn package_name_spec() -> Seq<char> {
    "@angular/language-server"@
}

/// The relative entry-point path, as an owned string.
pub fn server_path() -> (s: String)
    ensures
        s@ == server_path_spec(),
{
    String::from_str("node_modules/@angular/language-server/index.js")
}

/// The package name, as an owned string.
pub fn package_name() -> (s: String)
    ensures
        s@ == package_name_spec(),
{
    String::from_str("@angular/language-server")
}

/// Error text reported when an installation claims success but the entry
/// point is still missing; it names the package and the expected path.
pub open spec fn inconsistency_message_spec() -> Seq<char> {
    "installed package "@ + package_name_spec() + " did not contain expected path "@
        + server_path_spec()
}

/// Builds the installation-inconsistency error text.
pub fn inconsistency_message() -> (s: String)
    ensures
        s@ == inconsistency_message_spec(),
{
    String::from_str("installed package ").concat("@angular/language-server").concat(
        " did not contain expected path ",
    ).concat("node_modules/@angular/language-server/index.js")
}

/// Per-process locator state: `did_find_server` is set once a resolution has
/// confirmed a working installation, and is never cleared in-process.
pub struct AngularExtension {
    pub did_find_server: bool,
}

/// One step of a resolution. Each non-final step names the host work that is
/// due next; `Done` carries the answer for the host and whether the locator
/// may record the installation as found.
#[derive(Debug, PartialEq, Eq)]
pub enum ResolveStep {
    /// Pending host work: check whether the entry-point file exists.
    CheckFile,
    /// Pending host work: report checking-for-update, then query the latest
    /// available package version. `exists` is the entry-point check's answer.
    QueryLatest { exists: bool },
    /// Pending host work: query the installed package version.
    QueryInstalled { latest: String },
    /// Pending host work: report downloading, install the package at the
    /// `latest` version, then re-check the entry-point file.
    Install { latest: String },
    /// Resolution finished: the entry-point path, or an error to propagate.
    Done { result: Result<String, String>, found: bool },
}

/// The answer the host hands back for the pending work of a step.
#[derive(Debug, PartialEq, Eq)]
pub enum ResolveEvent {
    /// Whether the entry-point file exists.
    FileChecked { exists: bool },
    /// The latest available version of the package, or a query error.
    LatestVersion { version: Result<String, String> },
    /// The installed version of the package (absent when not installed), or
    /// a query error.
    InstalledVersion { installed: Result<Option<String>, String> },
    /// Whether the installation call succeeded, and whether the entry-point
    /// file exists after it.
    InstallFinished { install: Result<(), String>, exists_after: bool },
}

/// Mathematical model of a resolution step, over character sequences.
pub enum StepModel {
    CheckFile,
    QueryLatest { exists: bool },
    QueryInstalled { latest: Seq<char> },
    Install { latest: Seq<char> },
    Done { result: Result<Seq<char>, Seq<char>>, found: bool },
}

/// Mathematical model of a host answer.
pub enum EventModel {
    FileChecked { exists: bool },
    LatestVersion { version: Result<Seq<char>, Seq<char>> },
    InstalledVersion { installed: Result<Option<Seq<char>>, Seq<char>> },
    InstallFinished { install: Result<(), Seq<char>>, exists_after: bool },
}

impl View for ResolveStep {
    type V = StepModel;

    open spec fn view(&self) -> StepModel {
        match self {
            ResolveStep::CheckFile => StepModel::CheckFile,
            ResolveStep::QueryLatest { exists } => StepModel::QueryLatest { exists: *exists },
            ResolveStep::QueryInstalled { latest } => StepModel::QueryInstalled {
                latest: latest@,
            },
            ResolveStep::Install { latest } => StepModel::Install { latest: latest@ },
            ResolveStep::Done { result, found } => StepModel::Done {
                result: match result {
                    Ok(path) => Ok(path@),
                    Err(message) => Err(message@),
                },
                found: *found,
            },
        }
    }
}

impl View for ResolveEvent {
    type V = EventModel;

    open spec fn view(&self) -> EventModel {
        match self {
            ResolveEvent::FileChecked { exists } => EventModel::FileChecked { exists: *exists },
            ResolveEvent::LatestVersion { version } => EventModel::LatestVersion {
                version: match version {
                    Ok(v) => Ok(v@),
                    Err(message) => Err(message@),
                },
            },
            ResolveEvent::InstalledVersion { installed } => EventModel::InstalledVersion {
                installed: match installed {
                    Ok(current) => Ok(
                        match current {
                            Some(v) => Some(v@),
                            None => None,
                        },
                    ),
                    Err(message) => Err(message@),
                },
            },
            ResolveEvent::InstallFinished { install, exists_after } => {
                EventModel::InstallFinished {
                    install: match install {
                        Ok(unit) => Ok(*unit),
                        Err(message) => Err(message@),
                    },
                    exists_after: *exists_after,
                }
            },
        }
    }
}

/// Whether an event answers the pending work of a step. `Done` is final: no
/// event fits it.
pub open spec fn event_fits(step: StepModel, event: EventModel) -> bool {
    match (step, event) {
        (StepModel::CheckFile, EventModel::FileChecked { .. }) => true,
        (StepModel::QueryLatest { .. }, EventModel::LatestVersion { .. }) => true,
        (StepModel::QueryInstalled { .. }, EventModel::InstalledVersion { .. }) => true,
        (StepModel::Install { .. }, EventModel::InstallFinished { .. }) => true,
        _ => false,
    }
}

/// The resolution transition: what the locator decides once the host has
/// answered the pending work of a step.
///
/// - A confirmed locator whose entry point still exists answers at once.
/// - Otherwise the latest version is queried; a query error ends the run.
/// - A missing entry point is installed without asking for the installed
///   version; a present one is re-installed only when its installed version
///   differs from (or is absent versus) the latest.
/// - After an installation that claims success, a still-missing entry point
///   is an inconsistency error; after one that claims failure, a present
///   entry point counts as success and the error is swallowed.
pub open spec fn spec_step(did_find_server: bool, step: StepModel, event: EventModel) -> StepModel
    recommends
        event_fits(step, event),
{
    match (step, event) {
        (StepModel::CheckFile, EventModel::FileChecked { exists }) => {
            if did_find_server && exists {
                StepModel::Done { result: Ok(server_path_spec()), found: true }
            } else {
                StepModel::QueryLatest { exists }
            }
        },
        (StepModel::QueryLatest { exists }, EventModel::LatestVersion { version }) => {
            match version {
                Ok(version) => {
                    if !exists {
                        StepModel::Install { latest: version }
                    } else {
                        StepModel::QueryInstalled { latest: version }
                    }
                },
                Err(message) => StepModel::Done { result: Err(message), found: false },
            }
        },
        (StepModel::QueryInstalled { latest }, EventModel::InstalledVersion { installed }) => {
            match installed {
                Ok(current) => {
                    if current matches Some(version) && version == latest {
                        StepModel::Done { result: Ok(server_path_spec()), found: true }
                    } else {
                        StepModel::Install { latest }
                    }
                },
                Err(message) => StepModel::Done { result: Err(message), found: false },
            }
        },
        (StepModel::Install { .. }, EventModel::InstallFinished { install, exists_after }) => {
            match install {
                Ok(_) => {
                    if exists_after {
                        StepModel::Done { result: Ok(server_path_spec()), found: true }
                    } else {
                        StepModel::Done {
                            result: Err(inconsistency_message_spec()),
                            found: false,
                        }
                    }
                },
                Err(message) => {
                    if exists_after {
                        StepModel::Done { result: Ok(server_path_spec()), found: true }
                    } else {
                        StepModel::Done { result: Err(message), found: false }
                    }
                },
            }
        },
        (other, _) => other,
    }
}

/// An installation status the host is told about before a step's work runs.
#[derive(Clone, Copy, Debug, PartialEq, Eq, Structural)]
pub enum InstallStatus {
    CheckingForUpdate,
    Downloading,
}

/// The status report due before a step's host work: checking-for-update
/// before the latest-version query, downloading before an installation.
pub open spec fn spec_status(step: StepModel) -> Option<InstallStatus> {
    match step {
        StepModel::QueryLatest { .. } => Some(InstallStatus::CheckingForUpdate),
        StepModel::Install { .. } => Some(InstallStatus::Downloading),
        _ => None,
    }
}

impl ResolveStep {
    /// The installation status to report to the host before this step's
    /// pending work is performed.
    pub fn status_to_report(&self) -> (r: Option<InstallStatus>)
        ensures
            r == spec_status(self@),
    {
        match self {
            ResolveStep::QueryLatest { .. } => Some(InstallStatus::CheckingForUpdate),
            ResolveStep::Install { .. } => Some(InstallStatus::Downloading),
            _ => None,
        }
    }
}

impl AngularExtension {
    /// Fresh state at extension activation: nothing confirmed yet.
    pub fn new() -> (r: Self)
        ensures
            !r.did_find_server,
    {
        AngularExtension { did_find_server: false }
    }

    /// Takes one resolution step: consumes the host's answer to the pending
    /// work of `step` and decides what comes next.
    pub fn step(&self, step: ResolveStep, event: ResolveEvent) -> (next: ResolveStep)
        requires
            event_fits(step@, event@),
        ensures
            next@ == spec_step(self.did_find_server, step@, event@),
    {
        match (step, event) {
            (ResolveStep::CheckFile, ResolveEvent::FileChecked { exists }) => {
                if self.did_find_server && exists {
                    ResolveStep::Done { result: Ok(server_path()), found: true }
                } else {
                    ResolveStep::QueryLatest { exists }
                }
            },
            (ResolveStep::QueryLatest { exists }, ResolveEvent::LatestVersion { version }) => {
                match version {
                    Ok(version) => {
                        if !exists {
                            ResolveStep::Install { latest: version }
                        } else {
                            ResolveStep::QueryInstalled { latest: version }
                        }
                    },
                    Err(message) => ResolveStep::Done { result: Err(message), found: false },
                }
            },
            (
                ResolveStep::QueryInstalled { latest },
                ResolveEvent::InstalledVersion { installed },
            ) => {
                match installed {
                    Ok(current_version) => {
                        let current = match &current_version {
                            Some(version) => *version == latest,
                            None => false,
                        };
                        if current {
                            ResolveStep::Done { result: Ok(server_path()), found: true }
                        } else {
                            ResolveStep::Install { latest }
                        }
                    },
                    Err(message) => ResolveStep::Done { result: Err(message), found: false },
                }
            },
            (
                ResolveStep::Install { latest: _ },
                ResolveEvent::InstallFinished { install, exists_after },
            ) => {
                match install {
                    Ok(()) => {
                        if exists_after {
                            ResolveStep::Done { result: Ok(server_path()), found: true }
                        } else {
                            ResolveStep::Done {
                                result: Err(inconsistency_message()),
                                found: false,
                            }
                        }
                    },
                    Err(message) => {
                        if exists_after {
                            ResolveStep::Done { result: Ok(server_path()), found: true }
                        } else {
                            ResolveStep::Done { result: Err(message), found: false }
                        }
                    },
                }
            },
            (other, _) => other,
        }
    }

    /// Records a finished resolution: a successful one confirms the
    /// installation, a failed one leaves the locator as it was.
    pub fn record_outcome(&mut self, outcome: &ResolveStep)
        requires
            outcome@ is Done,
        ensures
            final(self).did_find_server == (old(self).did_find_server || outcome@->found),
    {
        if let ResolveStep::Done { found, .. } = outcome {
            if *found {
                self.did_find_server = true;
            }
        }
    }
}

/// One transition of a run: the event answers the step's pending work and
/// the next step is what the locator decides on it.
pub open spec fn follows(
    did_find_server: bool,
    prev: StepModel,
    event: EventModel,
    next: StepModel,
) -> bool {
    event_fits(prev, event) && next == spec_step(did_find_server, prev, event)
}

/// A resolution run: it starts at the entry-point file check, every later
/// step follows from the locator's transition on the host's answer, and no
/// step follows a finished one (no event fits `Done`).
pub open spec fn valid_run(
    did_find_server: bool,
    trace: Seq<StepModel>,
    events: Seq<EventModel>,
) -> bool {
    &&& trace.len() == events.len() + 1
    &&& trace[0] == StepModel::CheckFile
    &&& forall|i: int|
        0 <= i < events.len() ==> follows(did_find_server, trace[i], #[trigger] events[i], trace[i + 1])
}

/// Law: once a resolution has succeeded and the entry-point file still
/// exists, a run answers with the path at once — it neither queries the
/// package manager nor takes any further step.
pub proof fn lemma_fast_path(did_find_server: bool, trace: Seq<StepModel>, events: Seq<EventModel>)
    requires
        valid_run(did_find_server, trace, events),
        did_find_server,
        events.len() >= 1,
        events[0] == (EventModel::FileChecked { exists: true }),
    ensures
        trace.len() == 2,
        trace[1] == (StepModel::Done { result: Ok(server_path_spec()), found: true }),
        forall|i: int| 0 <= i < trace.len() ==> !((#[trigger] trace[i]) is QueryLatest),
{
    assert(follows(did_find_server, trace[0], events[0], trace[1]));
    assert(trace[1] == (StepModel::Done { result: Ok(server_path_spec()), found: true }));
    if events.len() >= 2 {
        assert(follows(did_find_server, trace[1], events[1], trace[2]));
        assert(false);
    }
    assert forall|i: int| 0 <= i < trace.len() implies !((#[trigger] trace[i]) is QueryLatest) by {
        assert(i == 0 || i == 1);
    }
}

/// Law: a resolution that finds the entry-point file absent queries the
/// latest available version as its very next step, whatever the cached flag
/// says — in particular before any installation.
pub proof fn lemma_absent_file_queries_latest(
    did_find_server: bool,
    trace: Seq<StepModel>,
    events: Seq<EventModel>,
)
    requires
        valid_run(did_find_server, trace, events),
        events.len() >= 1,
        events[0] == (EventModel::FileChecked { exists: false }),
    ensures
        trace[1] == (StepModel::QueryLatest { exists: false }),
{
    assert(follows(did_find_server, trace[0], events[0], trace[1]));
}

/// Law: an installation attempt never comes before the latest-version
/// query — every `Install` step of a run is preceded by a `QueryLatest`
/// step.
pub proof fn lemma_install_preceded_by_query(
    did_find_server: bool,
    trace: Seq<StepModel>,
    events: Seq<EventModel>,
    j: int,
)
    requires
        valid_run(did_find_server, trace, events),
        0 <= j < trace.len(),
        trace[j] is Install || trace[j] is QueryInstalled,
    ensures
        exists|k: int| 0 <= k < j && (#[trigger] trace[k]) is QueryLatest,
    decreases j,
{
    assert(trace[0] is CheckFile);
    assert(follows(did_find_server, trace[j - 1], events[j - 1], trace[j]));
    if trace[j - 1] is QueryLatest {
        assert(0 <= j - 1 < j && trace[j - 1] is QueryLatest);
    } else {
        lemma_install_preceded_by_query(did_find_server, trace, events, j - 1);
        let k = choose|k: int| 0 <= k < j - 1 && (#[trigger] trace[k]) is QueryLatest;
        assert(0 <= k < j && trace[k] is QueryLatest);
    }
}

/// Law: an installation that claims success while the entry-point file is
/// still absent ends the run with the inconsistency error, which names the
/// package and the expected path.
pub proof fn lemma_install_success_missing_entry_fails(did_find_server: bool, latest: Seq<char>)
    ensures
        spec_step(
            did_find_server,
            StepModel::Install { latest },
            EventModel::InstallFinished { install: Ok(()), exists_after: false },
        ) == (StepModel::Done { result: Err(inconsistency_message_spec()), found: false }),
{
}

/// Law: an installation that claims failure while the entry-point file is
/// present afterward is swallowed — the run ends successfully with the
/// entry-point path, and the installation counts as found.
pub proof fn lemma_install_failure_present_entry_succeeds(
    did_find_server: bool,
    latest: Seq<char>,
    error: Seq<char>,
)
    ensures
        spec_step(
            did_find_server,
            StepModel::Install { latest },
            EventModel::InstallFinished { install: Err(error), exists_after: true },
        ) == (StepModel::Done { result: Ok(server_path_spec()), found: true }),
{
}

/// Law: a run is recorded as found exactly when it ends successfully — the
/// cached flag is set only on a run that answered with the path.
pub proof fn lemma_done_found_iff_ok(
    did_find_server: bool,
    trace: Seq<StepModel>,
    events: Seq<EventModel>,
    i: int,
)
    requires
        valid_run(did_find_server, trace, events),
        0 <= i < trace.len(),
        trace[i] is Done,
    ensures
        trace[i]->found <==> trace[i]->result is Ok,
{
    assert(trace[0] is CheckFile);
    assert(follows(did_find_server, trace[i - 1], events[i - 1], trace[i]));
}

/// Law: a run that ends successfully always answers with the entry-point
/// path — no other path is ever returned.
pub proof fn lemma_success_returns_entry_path(
    did_find_server: bool,
    trace: Seq<StepModel>,
    events: Seq<EventModel>,
    i: int,
)
    requires
        valid_run(did_find_server, trace, events),
        0 <= i < trace.len(),
        trace[i] is Done,
        trace[i]->result is Ok,
    ensures
        trace[i]->result == Ok::<Seq<char>, Seq<char>>(server_path_spec()),
{
    assert(trace[0] is CheckFile);
    assert(follows(did_find_server, trace[i - 1], events[i - 1], trace[i]));
}

} // verus!
