//! The course of a maintenance run, one decision at a time: the caller carries
//! out each action and reports what came of it.
//!
//! A run checks the request and the privileges, selects its targets, stops the
//! service if it runs, deletes what was asked for target by target, starts the
//! service again if the run stopped it, and only then says whether anything
//! failed.

use vstd::prelude::*;
use crate::guid::{database_subkey, database_subkey_text};
use crate::maintenance::targets::{
    entry_models, find_orphans, orphans_among, record_models, select_targets,
    select_targets_spec, target_models, texts, DatabaseRecord, DatabaseTarget, DirectoryEntry,
    EntryModel, MaintenanceError, MaintenanceRequest, RecordModel, TargetModel,
};
use crate::service::{
    poll_verdict, wait_verdict, ServiceFault, ServiceGoal, WaitVerdict, POLL_ATTEMPTS,
    POLL_INTERVAL_MS, SERVICE_STOPPED,
};

verus! {

/// What a run is waiting to hear about.
#[derive(Clone, Copy, PartialEq, Eq, Debug, Structural)]
pub enum Phase {
    AwaitElevation,
    AwaitDatabases,
    AwaitDirectory,
    AwaitServiceState,
    AwaitStopControl,
    AwaitStopped,
    AwaitProbe,
    AwaitFileDelete,
    AwaitKeyDelete,
    AwaitOrphanDelete,
    AwaitStartControl,
    AwaitRunning,
    Finished,
}

/// What a failed deletion was about: the file or the registry entry of the
/// database with the given number, or the stray file at the given position.
#[derive(Clone, Copy, PartialEq, Eq, Debug, Structural)]
pub enum Subject {
    DatabaseFile { database: usize },
    RegistryEntry { database: usize },
    OrphanFile { position: usize },
}

/// One failed deletion with the system's error code.
#[derive(Clone, Copy, PartialEq, Eq, Debug, Structural)]
pub struct OperationError {
    pub subject: Subject,
    pub code: u32,
}

/// How a run ended.
#[derive(Clone, Copy, PartialEq, Eq, Debug, Structural)]
pub enum MaintOutcome {
    /// No database is registered and no stray file was found; the service
    /// was not touched.
    NothingToDo,
    /// Every deletion that was attempted succeeded.
    Completed,
    Failed { error: MaintenanceError },
}

/// What the caller is to do next.
#[derive(Debug, PartialEq, Eq)]
pub enum MaintAction {
    CheckElevation,
    ListDatabases,
    /// List the files in the database directory.
    ScanDirectory,
    QueryService,
    StopService,
    /// Pause for the given time, then read the state of the service.
    PollService { delay_ms: u64 },
    /// Find out whether the file exists.
    ProbeFile { path: String },
    DeleteFile { path: String },
    DeleteRegistryKey { subkey: String },
    StartService,
    /// The run is over.
    Finish { outcome: MaintOutcome },
    /// The report does not answer what the run is waiting for; nothing changed.
    OutOfTurn,
}

/// An action with its texts as plain text.
pub enum ActionModel {
    CheckElevation,
    ListDatabases,
    ScanDirectory,
    QueryService,
    StopService,
    PollService { delay_ms: u64 },
    ProbeFile { path: Seq<char> },
    DeleteFile { path: Seq<char> },
    DeleteRegistryKey { subkey: Seq<char> },
    StartService,
    Finish { outcome: MaintOutcome },
    OutOfTurn,
}

impl View for MaintAction {
    type V = ActionModel;

    open spec fn view(&self) -> ActionModel {
        match self {
            MaintAction::CheckElevation => ActionModel::CheckElevation,
            MaintAction::ListDatabases => ActionModel::ListDatabases,
            MaintAction::ScanDirectory => ActionModel::ScanDirectory,
            MaintAction::QueryService => ActionModel::QueryService,
            MaintAction::StopService => ActionModel::StopService,
            MaintAction::PollService { delay_ms } => ActionModel::PollService {
                delay_ms: *delay_ms,
            },
            MaintAction::ProbeFile { path } => ActionModel::ProbeFile { path: path@ },
            MaintAction::DeleteFile { path } => ActionModel::DeleteFile { path: path@ },
            MaintAction::DeleteRegistryKey { subkey } => ActionModel::DeleteRegistryKey {
                subkey: subkey@,
            },
            MaintAction::StartService => ActionModel::StartService,
            MaintAction::Finish { outcome } => ActionModel::Finish { outcome: *outcome },
            MaintAction::OutOfTurn => ActionModel::OutOfTurn,
        }
    }
}

/// What the caller reports back.
#[allow(inconsistent_fields)]
pub enum EventModel {
    Elevation { result: Result<bool, u32> },
    Databases { result: Result<Seq<RecordModel>, u32> },
    Directory { entries: Seq<EntryModel> },
    ServiceState { result: Result<u32, ServiceFault> },
    Control { result: Result<(), ServiceFault> },
    FileProbed { exists: bool },
    Operation { result: Result<(), u32> },
}

/// The state of a run.
pub struct RunModel {
    pub request: MaintenanceRequest,
    pub phase: Phase,
    pub targets: Seq<TargetModel>,
    pub orphans: Seq<Seq<char>>,
    /// Position of the target or stray file being worked on.
    pub cursor: nat,
    /// `None` until the service is known to be stopped; then whether this
    /// run stopped it.
    pub was_running: Option<bool>,
    /// Whether the service was seen running again after the deletions.
    pub restarted: bool,
    pub polls: nat,
    pub files_deleted: nat,
    pub registry_deleted: nat,
    pub orphans_deleted: nat,
    pub errors: Seq<OperationError>,
}

impl RunModel {
    /// The run as it begins, before anything is known.
    pub open spec fn initial(request: MaintenanceRequest) -> RunModel {
        RunModel {
            request,
            phase: Phase::AwaitElevation,
            targets: Seq::empty(),
            orphans: Seq::empty(),
            cursor: 0,
            was_running: None,
            restarted: false,
            polls: 0,
            files_deleted: 0,
            registry_deleted: 0,
            orphans_deleted: 0,
            errors: Seq::empty(),
        }
    }

    /// Whether the run is at work on a registered database.
    pub open spec fn in_target_phase(self) -> bool {
        self.phase == Phase::AwaitProbe || self.phase == Phase::AwaitFileDelete || self.phase
            == Phase::AwaitKeyDelete
    }

    /// Whether no deletion has been asked for yet.
    pub open spec fn before_deletions(self) -> bool {
        self.phase == Phase::AwaitElevation || self.phase == Phase::AwaitDatabases || self.phase
            == Phase::AwaitDirectory || self.phase == Phase::AwaitServiceState || self.phase
            == Phase::AwaitStopControl || self.phase == Phase::AwaitStopped
    }

    /// What holds of every state a run can reach.
    pub open spec fn wf(self) -> bool {
        &&& self.polls <= POLL_ATTEMPTS
        &&& self.files_deleted <= self.targets.len()
        &&& self.registry_deleted <= self.targets.len()
        &&& self.orphans_deleted <= self.orphans.len()
        &&& (self.phase == Phase::AwaitStopped || self.phase == Phase::AwaitRunning ==> self.polls
            < POLL_ATTEMPTS)
        &&& (self.before_deletions() ==> self.files_deleted == 0 && self.registry_deleted == 0
            && self.orphans_deleted == 0 && self.errors.len() == 0)
        &&& (self.in_target_phase() ==> self.cursor < self.targets.len() && self.registry_deleted
            <= self.cursor && self.orphans_deleted == 0 && self.was_running is Some)
        &&& (self.phase == Phase::AwaitProbe || self.phase == Phase::AwaitFileDelete
            ==> self.files_deleted <= self.cursor)
        &&& (self.phase == Phase::AwaitKeyDelete ==> self.files_deleted <= self.cursor + 1)
        &&& (self.phase == Phase::AwaitOrphanDelete ==> self.cursor < self.orphans.len()
            && self.orphans_deleted <= self.cursor && self.was_running is Some)
        &&& (self.phase == Phase::AwaitStartControl || self.phase == Phase::AwaitRunning
            ==> self.was_running == Some(true))
    }

    /// The run ends with the given outcome.
    pub open spec fn finish(self, outcome: MaintOutcome) -> (RunModel, ActionModel) {
        (RunModel { phase: Phase::Finished, ..self }, ActionModel::Finish { outcome })
    }

    /// The first step of a run: a request that asks for no deletion is
    /// refused at once, any other begins by checking the privileges.
    pub open spec fn start(request: MaintenanceRequest) -> (RunModel, ActionModel) {
        if !request.delete_file && !request.delete_registry {
            Self::initial(request).finish(
                MaintOutcome::Failed { error: MaintenanceError::NothingRequested },
            )
        } else {
            (Self::initial(request), ActionModel::CheckElevation)
        }
    }

    /// With targets and stray files known: nothing to do ends the run
    /// without touching the service, anything else asks for its state.
    pub open spec fn plan(self) -> (RunModel, ActionModel) {
        if self.targets.len() + self.orphans.len() == 0 {
            self.finish(MaintOutcome::NothingToDo)
        } else {
            (RunModel { phase: Phase::AwaitServiceState, ..self }, ActionModel::QueryService)
        }
    }

    /// The end of a run whose service is as it should be: an error if any
    /// deletion failed, success otherwise.
    pub open spec fn conclude(self) -> (RunModel, ActionModel) {
        if self.errors.len() > 0 {
            self.finish(MaintOutcome::Failed { error: MaintenanceError::SomeOperationsFailed })
        } else {
            self.finish(MaintOutcome::Completed)
        }
    }

    /// After the last deletion: the service is started again if this run
    /// stopped it, whatever the deletions came to.
    pub open spec fn wrap_up(self) -> (RunModel, ActionModel) {
        if self.was_running == Some(true) {
            (RunModel { phase: Phase::AwaitStartControl, ..self }, ActionModel::StartService)
        } else {
            self.conclude()
        }
    }

    /// The deletion of the stray file at `position`, or the end of the
    /// deletions when there is none left.
    pub open spec fn orphan_op(self, position: nat) -> (RunModel, ActionModel) {
        if position < self.orphans.len() {
            (
                RunModel { phase: Phase::AwaitOrphanDelete, cursor: position, ..self },
                ActionModel::DeleteFile { path: self.orphans[position as int] },
            )
        } else {
            self.wrap_up()
        }
    }

    /// Whether the file of the target at `position` is to be looked for.
    pub open spec fn wants_file(self, position: int) -> bool {
        self.request.delete_file && self.targets[position].file_path.len() > 0
    }

    /// The first operation on the targets from `position` on: for each
    /// target its file, if file deletion is asked for and it names one, then
    /// its registry entry, if that is asked for; after the last target, the
    /// stray files.
    pub open spec fn target_op(self, position: nat) -> (RunModel, ActionModel)
        decreases self.targets.len() - position,
    {
        if position >= self.targets.len() {
            self.orphan_op(0)
        } else if self.wants_file(position as int) {
            (
                RunModel { phase: Phase::AwaitProbe, cursor: position, ..self },
                ActionModel::ProbeFile { path: self.targets[position as int].file_path },
            )
        } else if self.request.delete_registry {
            (
                RunModel { phase: Phase::AwaitKeyDelete, cursor: position, ..self },
                ActionModel::DeleteRegistryKey {
                    subkey: database_subkey_text(self.targets[position as int].db_id),
                },
            )
        } else {
            self.target_op(position + 1)
        }
    }

    /// What follows the file of the current target: its registry entry if
    /// that is asked for, else the next target.
    pub open spec fn after_file(self) -> (RunModel, ActionModel) {
        if self.request.delete_registry {
            (
                RunModel { phase: Phase::AwaitKeyDelete, ..self },
                ActionModel::DeleteRegistryKey {
                    subkey: database_subkey_text(self.targets[self.cursor as int].db_id),
                },
            )
        } else {
            self.target_op(self.cursor + 1)
        }
    }

    /// Whether the process is elevated: only an elevated process goes on.
    pub open spec fn on_elevation(self, result: Result<bool, u32>) -> (RunModel, ActionModel) {
        if self.phase != Phase::AwaitElevation {
            (self, ActionModel::OutOfTurn)
        } else {
            match result {
                Err(code) => self.finish(
                    MaintOutcome::Failed { error: MaintenanceError::ElevationUnknown { code } },
                ),
                Ok(false) => self.finish(
                    MaintOutcome::Failed { error: MaintenanceError::NotElevated },
                ),
                Ok(true) => (
                    RunModel { phase: Phase::AwaitDatabases, ..self },
                    ActionModel::ListDatabases,
                ),
            }
        }
    }

    /// The listing of the databases: the targets are selected from it, and a
    /// selection that fails ends the run before anything is touched.
    pub open spec fn on_databases(self, result: Result<Seq<RecordModel>, u32>) -> (
        RunModel,
        ActionModel,
    ) {
        if self.phase != Phase::AwaitDatabases {
            (self, ActionModel::OutOfTurn)
        } else {
            match result {
                Err(code) => self.finish(
                    MaintOutcome::Failed { error: MaintenanceError::EnumerationFailed { code } },
                ),
                Ok(records) => match select_targets_spec(
                    records,
                    self.request.db_number,
                    self.request.all,
                ) {
                    Err(error) => self.finish(MaintOutcome::Failed { error }),
                    Ok(targets) => {
                        let selected = RunModel { targets, ..self };
                        if self.request.all && self.request.delete_file {
                            (
                                RunModel { phase: Phase::AwaitDirectory, ..selected },
                                ActionModel::ScanDirectory,
                            )
                        } else {
                            selected.plan()
                        }
                    },
                },
            }
        }
    }

    /// The files of the database directory: the stray ones among them join the
    /// targets.
    pub open spec fn on_directory(self, entries: Seq<EntryModel>) -> (RunModel, ActionModel) {
        if self.phase != Phase::AwaitDirectory {
            (self, ActionModel::OutOfTurn)
        } else {
            RunModel { orphans: orphans_among(entries, self.targets), ..self }.plan()
        }
    }

    /// A reading of the service's state: the first one decides whether the
    /// service has to be stopped; later ones are counted against the
    /// permitted number while waiting for it to stop or to run again.
    pub open spec fn on_service_state(self, result: Result<u32, ServiceFault>) -> (
        RunModel,
        ActionModel,
    ) {
        let reading = match result {
            Ok(raw) => Some(raw),
            Err(_) => None,
        };
        let counted = RunModel { polls: self.polls + 1, ..self };
        if self.phase == Phase::AwaitServiceState {
            match result {
                Err(fault) => self.finish(
                    MaintOutcome::Failed { error: MaintenanceError::ServiceUnavailable { fault } },
                ),
                Ok(raw) => if raw == SERVICE_STOPPED {
                    RunModel { was_running: Some(false), ..self }.target_op(0)
                } else {
                    (RunModel { phase: Phase::AwaitStopControl, ..self }, ActionModel::StopService)
                },
            }
        } else if self.phase == Phase::AwaitStopped {
            match wait_verdict(ServiceGoal::Stopped, self.polls as int + 1, reading) {
                WaitVerdict::Reached => RunModel { was_running: Some(true), ..counted }.target_op(
                    0,
                ),
                WaitVerdict::PollAgain => (
                    counted,
                    ActionModel::PollService { delay_ms: POLL_INTERVAL_MS },
                ),
                WaitVerdict::TimedOut => counted.finish(
                    MaintOutcome::Failed { error: MaintenanceError::StopTimedOut },
                ),
            }
        } else if self.phase == Phase::AwaitRunning {
            match wait_verdict(ServiceGoal::Running, self.polls as int + 1, reading) {
                WaitVerdict::Reached => RunModel { restarted: true, ..counted }.conclude(),
                WaitVerdict::PollAgain => (
                    counted,
                    ActionModel::PollService { delay_ms: POLL_INTERVAL_MS },
                ),
                WaitVerdict::TimedOut => counted.finish(
                    MaintOutcome::Failed { error: MaintenanceError::StartTimedOut },
                ),
            }
        } else {
            (self, ActionModel::OutOfTurn)
        }
    }

    /// The answer to a stop or start request: a refusal ends the run, an
    /// acceptance begins the wait.
    pub open spec fn on_control(self, result: Result<(), ServiceFault>) -> (
        RunModel,
        ActionModel,
    ) {
        if self.phase == Phase::AwaitStopControl {
            match result {
                Err(fault) => self.finish(
                    MaintOutcome::Failed { error: MaintenanceError::StopRejected { fault } },
                ),
                Ok(_) => (
                    RunModel { phase: Phase::AwaitStopped, polls: 0, ..self },
                    ActionModel::PollService { delay_ms: POLL_INTERVAL_MS },
                ),
            }
        } else if self.phase == Phase::AwaitStartControl {
            match result {
                Err(fault) => self.finish(
                    MaintOutcome::Failed { error: MaintenanceError::StartRejected { fault } },
                ),
                Ok(_) => (
                    RunModel { phase: Phase::AwaitRunning, polls: 0, ..self },
                    ActionModel::PollService { delay_ms: POLL_INTERVAL_MS },
                ),
            }
        } else {
            (self, ActionModel::OutOfTurn)
        }
    }

    /// Whether the file of the current target exists: if so it is deleted,
    /// if not the run goes on and nothing counts as failed.
    pub open spec fn on_file_probed(self, exists: bool) -> (RunModel, ActionModel) {
        if self.phase != Phase::AwaitProbe {
            (self, ActionModel::OutOfTurn)
        } else if exists {
            (
                RunModel { phase: Phase::AwaitFileDelete, ..self },
                ActionModel::DeleteFile { path: self.targets[self.cursor as int].file_path },
            )
        } else {
            self.after_file()
        }
    }

    /// The state with the result of the current deletion taken down: a
    /// success is counted, a failure recorded with its subject.
    pub open spec fn recorded(self, result: Result<(), u32>) -> RunModel {
        let database = self.targets[self.cursor as int].index as usize;
        match result {
            Ok(_) => if self.phase == Phase::AwaitFileDelete {
                RunModel { files_deleted: self.files_deleted + 1, ..self }
            } else if self.phase == Phase::AwaitKeyDelete {
                RunModel { registry_deleted: self.registry_deleted + 1, ..self }
            } else {
                RunModel { orphans_deleted: self.orphans_deleted + 1, ..self }
            },
            Err(code) => {
                let subject = if self.phase == Phase::AwaitFileDelete {
                    Subject::DatabaseFile { database }
                } else if self.phase == Phase::AwaitKeyDelete {
                    Subject::RegistryEntry { database }
                } else {
                    Subject::OrphanFile { position: self.cursor as usize }
                };
                RunModel { errors: self.errors.push(OperationError { subject, code }), ..self }
            },
        }
    }

    /// The result of a deletion: it is taken down, and the run goes on to
    /// the next operation whether it succeeded or not.
    pub open spec fn on_operation(self, result: Result<(), u32>) -> (RunModel, ActionModel) {
        if self.phase == Phase::AwaitFileDelete {
            self.recorded(result).after_file()
        } else if self.phase == Phase::AwaitKeyDelete {
            self.recorded(result).target_op(self.cursor + 1)
        } else if self.phase == Phase::AwaitOrphanDelete {
            self.recorded(result).orphan_op(self.cursor + 1)
        } else {
            (self, ActionModel::OutOfTurn)
        }
    }

    /// How many registered databases have had their turn: those before
    /// the current one while the targets are worked on, all of them once the
    /// run has gone past them, none while the service is not known stopped.
    pub open spec fn targets_processed(self) -> nat {
        if self.was_running is None {
            0
        } else if self.in_target_phase() {
            self.cursor
        } else {
            self.targets.len()
        }
    }

    /// What became of the service.
    pub open spec fn service_disposition(self) -> ServiceDisposition {
        match self.was_running {
            None => ServiceDisposition::Untouched,
            Some(false) => ServiceDisposition::LeftStopped,
            Some(true) => if self.restarted {
                ServiceDisposition::Restarted
            } else {
                ServiceDisposition::NotRestarted
            },
        }
    }

    /// The account of the run in this state.
    pub open spec fn report(self) -> ReportModel {
        ReportModel {
            targets_processed: self.targets_processed(),
            files_deleted: self.files_deleted,
            registry_entries_deleted: self.registry_deleted,
            orphan_files_deleted: self.orphans_deleted,
            errors: self.errors,
            service: self.service_disposition(),
        }
    }

    /// One step of a run.
    pub open spec fn step(self, event: EventModel) -> (RunModel, ActionModel) {
        match event {
            EventModel::Elevation { result } => self.on_elevation(result),
            EventModel::Databases { result } => self.on_databases(result),
            EventModel::Directory { entries } => self.on_directory(entries),
            EventModel::ServiceState { result } => self.on_service_state(result),
            EventModel::Control { result } => self.on_control(result),
            EventModel::FileProbed { exists } => self.on_file_probed(exists),
            EventModel::Operation { result } => self.on_operation(result),
        }
    }
}

/// What became of the service in a run.
#[derive(Clone, Copy, PartialEq, Eq, Debug, Structural)]
pub enum ServiceDisposition {
    /// The run never came to know the service stopped.
    Untouched,
    /// The service was found stopped and left so; it has to be started by
    /// hand.
    LeftStopped,
    /// The run stopped the service and saw it running again.
    Restarted,
    /// The run stopped the service and has not seen it running since.
    NotRestarted,
}

/// What a run has done so far.
#[derive(Debug, PartialEq, Eq)]
pub struct MaintenanceReport {
    /// Registered databases whose turn has passed.
    pub targets_processed: usize,
    /// Files of registered databases that were deleted.
    pub files_deleted: usize,
    pub registry_entries_deleted: usize,
    /// Stray files that were deleted.
    pub orphan_files_deleted: usize,
    /// The deletions that failed, in the order in which they were attempted.
    pub errors: Vec<OperationError>,
    pub service: ServiceDisposition,
}

/// A report with its list as a sequence.
pub struct ReportModel {
    pub targets_processed: nat,
    pub files_deleted: nat,
    pub registry_entries_deleted: nat,
    pub orphan_files_deleted: nat,
    pub errors: Seq<OperationError>,
    pub service: ServiceDisposition,
}

impl View for MaintenanceReport {
    type V = ReportModel;

    open spec fn view(&self) -> ReportModel {
        ReportModel {
            targets_processed: self.targets_processed as nat,
            files_deleted: self.files_deleted as nat,
            registry_entries_deleted: self.registry_entries_deleted as nat,
            orphan_files_deleted: self.orphan_files_deleted as nat,
            errors: self.errors@,
            service: self.service,
        }
    }
}

/// The databases a listing reported, or the code with which it failed.
pub open spec fn listing_model(result: Result<Vec<DatabaseRecord>, u32>) -> Result<
    Seq<RecordModel>,
    u32,
> {
    match result {
        Ok(records) => Ok(record_models(records@)),
        Err(code) => Err(code),
    }
}

/// A maintenance run in progress.
pub struct Orchestrator {
    request: MaintenanceRequest,
    phase: Phase,
    targets: Vec<DatabaseTarget>,
    orphans: Vec<String>,
    cursor: usize,
    was_running: Option<bool>,
    restarted: bool,
    polls: u32,
    files_deleted: usize,
    registry_deleted: usize,
    orphans_deleted: usize,
    errors: Vec<OperationError>,
}

impl View for Orchestrator {
    type V = RunModel;

    closed spec fn view(&self) -> RunModel {
        RunModel {
            request: self.request,
            phase: self.phase,
            targets: target_models(self.targets@),
            orphans: texts(self.orphans@),
            cursor: self.cursor as nat,
            was_running: self.was_running,
            restarted: self.restarted,
            polls: self.polls as nat,
            files_deleted: self.files_deleted as nat,
            registry_deleted: self.registry_deleted as nat,
            orphans_deleted: self.orphans_deleted as nat,
            errors: self.errors@,
        }
    }
}

impl Orchestrator {
    /// Whether the run is in a state that a run can reach.
    pub open spec fn wf(&self) -> bool {
        self@.wf()
    }

    /// Begins a run and says what to do first.
    pub fn new(request: MaintenanceRequest) -> (r: (Orchestrator, MaintAction))
        ensures
            (r.0@, r.1@) == RunModel::start(request),
            r.0.wf(),
    {
        let mut run = Orchestrator {
            request,
            phase: Phase::AwaitElevation,
            targets: Vec::new(),
            orphans: Vec::new(),
            cursor: 0,
            was_running: None,
            restarted: false,
            polls: 0,
            files_deleted: 0,
            registry_deleted: 0,
            orphans_deleted: 0,
            errors: Vec::new(),
        };
        assert(run@.targets =~= Seq::empty());
        assert(run@.orphans =~= Seq::empty());
        assert(run@.errors =~= Seq::empty());
        if !request.delete_file && !request.delete_registry {
            let action = run.finish(
                MaintOutcome::Failed { error: MaintenanceError::NothingRequested },
            );
            (run, action)
        } else {
            (run, MaintAction::CheckElevation)
        }
    }

    /// What the run is waiting to hear about.
    pub fn phase(&self) -> (phase: Phase)
        ensures
            phase == self@.phase,
    {
        self.phase
    }

    /// The registered databases the run covers.
    pub fn targets(&self) -> (targets: &Vec<DatabaseTarget>)
        ensures
            target_models(targets@) == self@.targets,
    {
        &self.targets
    }

    /// The stray files the run covers.
    pub fn orphans(&self) -> (orphans: &Vec<String>)
        ensures
            texts(orphans@) == self@.orphans,
    {
        &self.orphans
    }

    /// Position of the target or stray file being worked on.
    pub fn cursor(&self) -> (cursor: usize)
        ensures
            cursor == self@.cursor,
    {
        self.cursor
    }

    /// The account of what the run has done so far.
    pub fn report(&self) -> (report: MaintenanceReport)
        ensures
            report@ == self@.report(),
    {
        let targets_processed = match self.was_running {
            None => 0,
            Some(_) => match self.phase {
                Phase::AwaitProbe | Phase::AwaitFileDelete | Phase::AwaitKeyDelete => self.cursor,
                _ => self.targets.len(),
            },
        };
        let service = match self.was_running {
            None => ServiceDisposition::Untouched,
            Some(false) => ServiceDisposition::LeftStopped,
            Some(true) => if self.restarted {
                ServiceDisposition::Restarted
            } else {
                ServiceDisposition::NotRestarted
            },
        };
        let mut errors: Vec<OperationError> = Vec::new();
        let mut i: usize = 0;
        while i < self.errors.len()
            invariant
                i <= self.errors.len(),
                errors@ == self.errors@.take(i as int),
            decreases self.errors.len() - i,
        {
            errors.push(self.errors[i]);
            assert(self.errors@.take(i as int + 1) =~= self.errors@.take(i as int).push(
                self.errors@[i as int],
            ));
            i = i + 1;
        }
        assert(self.errors@.take(self.errors.len() as int) =~= self.errors@);
        MaintenanceReport {
            targets_processed,
            files_deleted: self.files_deleted,
            registry_entries_deleted: self.registry_deleted,
            orphan_files_deleted: self.orphans_deleted,
            errors,
            service,
        }
    }

    fn finish(&mut self, outcome: MaintOutcome) -> (action: MaintAction)
        ensures
            (final(self)@, action@) == old(self)@.finish(outcome),
    {
        self.phase = Phase::Finished;
        MaintAction::Finish { outcome }
    }

    fn plan(&mut self) -> (action: MaintAction)
        ensures
            (final(self)@, action@) == old(self)@.plan(),
    {
        if self.targets.len() == 0 && self.orphans.len() == 0 {
            self.finish(MaintOutcome::NothingToDo)
        } else {
            self.phase = Phase::AwaitServiceState;
            MaintAction::QueryService
        }
    }

    fn conclude(&mut self) -> (action: MaintAction)
        ensures
            (final(self)@, action@) == old(self)@.conclude(),
    {
        if self.errors.len() > 0 {
            self.finish(MaintOutcome::Failed { error: MaintenanceError::SomeOperationsFailed })
        } else {
            self.finish(MaintOutcome::Completed)
        }
    }

    fn wrap_up(&mut self) -> (action: MaintAction)
        ensures
            (final(self)@, action@) == old(self)@.wrap_up(),
    {
        match self.was_running {
            Some(true) => {
                self.phase = Phase::AwaitStartControl;
                MaintAction::StartService
            },
            _ => self.conclude(),
        }
    }

    fn orphan_op(&mut self, position: usize) -> (action: MaintAction)
        ensures
            (final(self)@, action@) == old(self)@.orphan_op(position as nat),
    {
        if position < self.orphans.len() {
            let path = self.orphans[position].clone();
            self.phase = Phase::AwaitOrphanDelete;
            self.cursor = position;
            MaintAction::DeleteFile { path }
        } else {
            self.wrap_up()
        }
    }

    fn target_op(&mut self, position: usize) -> (action: MaintAction)
        ensures
            (final(self)@, action@) == old(self)@.target_op(position as nat),
    {
        let mut i: usize = position;
        while i < self.targets.len()
            invariant
                position <= i,
                *self == *old(self),
                old(self)@.target_op(position as nat) == old(self)@.target_op(i as nat),
            decreases self.targets.len() - i,
        {
            if self.request.delete_file && !self.targets[i].file_path.as_str().is_empty() {
                let path = self.targets[i].file_path.clone();
                self.phase = Phase::AwaitProbe;
                self.cursor = i;
                return MaintAction::ProbeFile { path };
            }
            if self.request.delete_registry {
                let subkey = database_subkey(self.targets[i].db_id.as_str());
                self.phase = Phase::AwaitKeyDelete;
                self.cursor = i;
                return MaintAction::DeleteRegistryKey { subkey };
            }
            i = i + 1;
        }
        self.orphan_op(0)
    }

    fn after_file(&mut self) -> (action: MaintAction)
        requires
            old(self).cursor < old(self).targets.len(),
        ensures
            (final(self)@, action@) == old(self)@.after_file(),
    {
        if self.request.delete_registry {
            let subkey = database_subkey(self.targets[self.cursor].db_id.as_str());
            self.phase = Phase::AwaitKeyDelete;
            MaintAction::DeleteRegistryKey { subkey }
        } else {
            let next = self.cursor + 1;
            self.target_op(next)
        }
    }

    fn record(&mut self, result: Result<(), u32>)
        requires
            old(self).wf(),
            old(self).phase == Phase::AwaitFileDelete || old(self).phase == Phase::AwaitKeyDelete
                || old(self).phase == Phase::AwaitOrphanDelete,
        ensures
            final(self)@ == old(self)@.recorded(result),
    {
        assert(self@.targets.len() == self.targets.len());
        assert(self@.orphans.len() == self.orphans.len());
        match result {
            Ok(_) => {
                match self.phase {
                    Phase::AwaitFileDelete => {
                        self.files_deleted = self.files_deleted + 1;
                    },
                    Phase::AwaitKeyDelete => {
                        self.registry_deleted = self.registry_deleted + 1;
                    },
                    _ => {
                        self.orphans_deleted = self.orphans_deleted + 1;
                    },
                }
            },
            Err(code) => {
                let subject = match self.phase {
                    Phase::AwaitFileDelete => Subject::DatabaseFile {
                        database: self.targets[self.cursor].index,
                    },
                    Phase::AwaitKeyDelete => Subject::RegistryEntry {
                        database: self.targets[self.cursor].index,
                    },
                    _ => Subject::OrphanFile { position: self.cursor },
                };
                self.errors.push(OperationError { subject, code });
            },
        }
    }

    /// Takes in whether the process is elevated.
    pub fn on_elevation(&mut self, result: Result<bool, u32>) -> (action: MaintAction)
        requires
            old(self).wf(),
        ensures
            (final(self)@, action@) == old(self)@.on_elevation(result),
            final(self).wf(),
    {
        if self.phase != Phase::AwaitElevation {
            return MaintAction::OutOfTurn;
        }
        match result {
            Err(code) => self.finish(
                MaintOutcome::Failed { error: MaintenanceError::ElevationUnknown { code } },
            ),
            Ok(false) => self.finish(MaintOutcome::Failed { error: MaintenanceError::NotElevated }),
            Ok(true) => {
                self.phase = Phase::AwaitDatabases;
                MaintAction::ListDatabases
            },
        }
    }

    /// Takes in the listing of the registered databases.
    pub fn on_databases(&mut self, result: Result<Vec<DatabaseRecord>, u32>) -> (action:
        MaintAction)
        requires
            old(self).wf(),
        ensures
            (final(self)@, action@) == old(self)@.on_databases(listing_model(result)),
            final(self).wf(),
    {
        if self.phase != Phase::AwaitDatabases {
            return MaintAction::OutOfTurn;
        }
        match result {
            Err(code) => self.finish(
                MaintOutcome::Failed { error: MaintenanceError::EnumerationFailed { code } },
            ),
            Ok(records) => match select_targets(&records, self.request.db_number, self.request.all) {
                Err(error) => self.finish(MaintOutcome::Failed { error }),
                Ok(targets) => {
                    self.targets = targets;
                    if self.request.all && self.request.delete_file {
                        self.phase = Phase::AwaitDirectory;
                        MaintAction::ScanDirectory
                    } else {
                        self.plan()
                    }
                },
            },
        }
    }

    /// Takes in the files found in the database directory; a directory that
    /// cannot be read counts as empty.
    pub fn on_directory(&mut self, entries: Vec<DirectoryEntry>) -> (action: MaintAction)
        requires
            old(self).wf(),
        ensures
            (final(self)@, action@) == old(self)@.on_directory(entry_models(entries@)),
            final(self).wf(),
    {
        if self.phase != Phase::AwaitDirectory {
            return MaintAction::OutOfTurn;
        }
        self.orphans = find_orphans(&entries, &self.targets);
        self.plan()
    }

    /// Takes in a reading of the service's state, or why it could not be read.
    pub fn on_service_state(&mut self, result: Result<u32, ServiceFault>) -> (action: MaintAction)
        requires
            old(self).wf(),
        ensures
            (final(self)@, action@) == old(self)@.on_service_state(result),
            final(self).wf(),
    {
        proof {
            lemma_step_keeps_wf(self@, EventModel::ServiceState { result });
        }
        let reading = match result {
            Ok(raw) => Some(raw),
            Err(_) => None,
        };
        match self.phase {
            Phase::AwaitServiceState => match result {
                Err(fault) => self.finish(
                    MaintOutcome::Failed { error: MaintenanceError::ServiceUnavailable { fault } },
                ),
                Ok(raw) => {
                    if raw == SERVICE_STOPPED {
                        self.was_running = Some(false);
                        self.target_op(0)
                    } else {
                        self.phase = Phase::AwaitStopControl;
                        MaintAction::StopService
                    }
                },
            },
            Phase::AwaitStopped => {
                self.polls = self.polls + 1;
                match poll_verdict(ServiceGoal::Stopped, self.polls, reading) {
                    WaitVerdict::Reached => {
                        self.was_running = Some(true);
                        self.target_op(0)
                    },
                    WaitVerdict::PollAgain => MaintAction::PollService {
                        delay_ms: POLL_INTERVAL_MS,
                    },
                    WaitVerdict::TimedOut => self.finish(
                        MaintOutcome::Failed { error: MaintenanceError::StopTimedOut },
                    ),
                }
            },
            Phase::AwaitRunning => {
                self.polls = self.polls + 1;
                match poll_verdict(ServiceGoal::Running, self.polls, reading) {
                    WaitVerdict::Reached => {
                        self.restarted = true;
                        self.conclude()
                    },
                    WaitVerdict::PollAgain => MaintAction::PollService {
                        delay_ms: POLL_INTERVAL_MS,
                    },
                    WaitVerdict::TimedOut => self.finish(
                        MaintOutcome::Failed { error: MaintenanceError::StartTimedOut },
                    ),
                }
            },
            _ => MaintAction::OutOfTurn,
        }
    }

    /// Takes in the answer to a stop or start request.
    pub fn on_control(&mut self, result: Result<(), ServiceFault>) -> (action: MaintAction)
        requires
            old(self).wf(),
        ensures
            (final(self)@, action@) == old(self)@.on_control(result),
            final(self).wf(),
    {
        match self.phase {
            Phase::AwaitStopControl => match result {
                Err(fault) => self.finish(
                    MaintOutcome::Failed { error: MaintenanceError::StopRejected { fault } },
                ),
                Ok(_) => {
                    self.phase = Phase::AwaitStopped;
                    self.polls = 0;
                    MaintAction::PollService { delay_ms: POLL_INTERVAL_MS }
                },
            },
            Phase::AwaitStartControl => match result {
                Err(fault) => self.finish(
                    MaintOutcome::Failed { error: MaintenanceError::StartRejected { fault } },
                ),
                Ok(_) => {
                    self.phase = Phase::AwaitRunning;
                    self.polls = 0;
                    MaintAction::PollService { delay_ms: POLL_INTERVAL_MS }
                },
            },
            _ => MaintAction::OutOfTurn,
        }
    }

    /// Takes in whether the file of the current target exists.
    pub fn on_file_probed(&mut self, exists: bool) -> (action: MaintAction)
        requires
            old(self).wf(),
        ensures
            (final(self)@, action@) == old(self)@.on_file_probed(exists),
            final(self).wf(),
    {
        proof {
            lemma_step_keeps_wf(self@, EventModel::FileProbed { exists });
        }
        if self.phase != Phase::AwaitProbe {
            return MaintAction::OutOfTurn;
        }
        if exists {
            let path = self.targets[self.cursor].file_path.clone();
            self.phase = Phase::AwaitFileDelete;
            MaintAction::DeleteFile { path }
        } else {
            self.after_file()
        }
    }

    /// Takes in the result of the deletion that was asked for.
    pub fn on_operation(&mut self, result: Result<(), u32>) -> (action: MaintAction)
        requires
            old(self).wf(),
        ensures
            (final(self)@, action@) == old(self)@.on_operation(result),
            final(self).wf(),
    {
        proof {
            lemma_step_keeps_wf(self@, EventModel::Operation { result });
            assert(self@.targets.len() == self.targets.len());
            assert(self@.orphans.len() == self.orphans.len());
        }
        match self.phase {
            Phase::AwaitFileDelete => {
                self.record(result);
                self.after_file()
            },
            Phase::AwaitKeyDelete => {
                self.record(result);
                let next = self.cursor + 1;
                self.target_op(next)
            },
            Phase::AwaitOrphanDelete => {
                self.record(result);
                let next = self.cursor + 1;
                self.orphan_op(next)
            },
            _ => MaintAction::OutOfTurn,
        }
    }
}

/// The operations on the targets from `position` on lead to a reachable
/// state, given that the deletions counted so far concern earlier targets.
pub proof fn lemma_target_op_keeps_wf(m: RunModel, position: nat)
    requires
        position <= m.targets.len(),
        m.polls <= POLL_ATTEMPTS,
        m.files_deleted <= position,
        m.registry_deleted <= position,
        m.orphans_deleted == 0,
        m.was_running is Some,
    ensures
        m.target_op(position).0.wf(),
    decreases m.targets.len() - position,
{
    if position < m.targets.len() && !m.wants_file(position as int) && !m.request.delete_registry {
        lemma_target_op_keeps_wf(m, position + 1);
    }
}

/// Every step leads from a reachable state to a reachable state.
pub proof fn lemma_step_keeps_wf(m: RunModel, event: EventModel)
    requires
        m.wf(),
    ensures
        m.step(event).0.wf(),
{
    match event {
        EventModel::Elevation { result } => {},
        EventModel::Databases { result } => {},
        EventModel::Directory { entries } => {},
        EventModel::ServiceState { result } => {
            if m.phase == Phase::AwaitServiceState {
                lemma_target_op_keeps_wf(RunModel { was_running: Some(false), ..m }, 0);
            } else if m.phase == Phase::AwaitStopped {
                lemma_target_op_keeps_wf(
                    RunModel { was_running: Some(true), polls: m.polls + 1, ..m },
                    0,
                );
            }
        },
        EventModel::Control { result } => {},
        EventModel::FileProbed { exists } => {
            if m.phase == Phase::AwaitProbe {
                lemma_target_op_keeps_wf(m, m.cursor + 1);
            }
        },
        EventModel::Operation { result } => {
            if m.phase == Phase::AwaitFileDelete || m.phase == Phase::AwaitKeyDelete {
                lemma_target_op_keeps_wf(m.recorded(result), m.cursor + 1);
            }
        },
    }
}

} // verus!
