//! The biometric system service: its run state, the bounded wait for a state
//! change, and the decisions of a stop or start command.

use vstd::prelude::*;

verus! {

/// Name of the biometric system service.
pub const SERVICE_NAME: &'static str = "WbioSrvc";

/// Raw state of a service that is not running.
pub const SERVICE_STOPPED: u32 = 1;

/// Raw state of a service that is starting.
pub const SERVICE_START_PENDING: u32 = 2;

/// Raw state of a service that is stopping.
pub const SERVICE_STOP_PENDING: u32 = 3;

/// Raw state of a service that is running.
pub const SERVICE_RUNNING: u32 = 4;

/// Raw state of a service that is about to continue.
pub const SERVICE_CONTINUE_PENDING: u32 = 5;

/// Raw state of a service that is about to pause.
pub const SERVICE_PAUSE_PENDING: u32 = 6;

/// Raw state of a service that is paused.
pub const SERVICE_PAUSED: u32 = 7;

/// Start type of a service that is disabled.
pub const START_TYPE_DISABLED: u32 = 4;

/// How often the run state is read while waiting for a change.
pub const POLL_ATTEMPTS: u32 = 30;

/// Pause before each reading of the run state, in milliseconds.
pub const POLL_INTERVAL_MS: u64 = 500;

/// What matters of the service's state to a command that stops or starts it.
#[derive(Clone, Copy, PartialEq, Eq, Debug, Structural)]
pub enum ServiceRunState {
    Stopped,
    Running,
    Transitioning,
}

/// The projection of a raw service state: only "stopped" and "running" are
/// settled, every other value counts as in transition.
pub open spec fn run_state_of(raw: u32) -> ServiceRunState {
    if raw == SERVICE_STOPPED {
        ServiceRunState::Stopped
    } else if raw == SERVICE_RUNNING {
        ServiceRunState::Running
    } else {
        ServiceRunState::Transitioning
    }
}

impl ServiceRunState {
    /// Projects a raw service state.
    pub fn from_raw(raw: u32) -> (r: ServiceRunState)
        ensures
            r == run_state_of(raw),
    {
        if raw == SERVICE_STOPPED {
            ServiceRunState::Stopped
        } else if raw == SERVICE_RUNNING {
            ServiceRunState::Running
        } else {
            ServiceRunState::Transitioning
        }
    }
}

/// The display name of a raw service state.
pub open spec fn service_state_text(raw: u32) -> Seq<char> {
    if raw == SERVICE_STOPPED {
        "Stopped"@
    } else if raw == SERVICE_START_PENDING {
        "Start Pending"@
    } else if raw == SERVICE_STOP_PENDING {
        "Stop Pending"@
    } else if raw == SERVICE_RUNNING {
        "Running"@
    } else if raw == SERVICE_CONTINUE_PENDING {
        "Continue Pending"@
    } else if raw == SERVICE_PAUSE_PENDING {
        "Pause Pending"@
    } else if raw == SERVICE_PAUSED {
        "Paused"@
    } else {
        "Unknown"@
    }
}

/// Names a raw service state.
pub fn service_state_name(raw: u32) -> (r: &'static str)
    ensures
        r@ == service_state_text(raw),
{
    if raw == SERVICE_STOPPED {
        "Stopped"
    } else if raw == SERVICE_START_PENDING {
        "Start Pending"
    } else if raw == SERVICE_STOP_PENDING {
        "Stop Pending"
    } else if raw == SERVICE_RUNNING {
        "Running"
    } else if raw == SERVICE_CONTINUE_PENDING {
        "Continue Pending"
    } else if raw == SERVICE_PAUSE_PENDING {
        "Pause Pending"
    } else if raw == SERVICE_PAUSED {
        "Paused"
    } else {
        "Unknown"
    }
}

/// The display name of a raw service start type.
pub open spec fn start_type_text(raw: u32) -> Seq<char> {
    if raw == 0 {
        "Boot"@
    } else if raw == 1 {
        "System"@
    } else if raw == 2 {
        "Automatic"@
    } else if raw == 3 {
        "Manual (Demand)"@
    } else if raw == 4 {
        "Disabled"@
    } else {
        "Unknown"@
    }
}

/// Names a raw service start type.
pub fn start_type_name(raw: u32) -> (r: &'static str)
    ensures
        r@ == start_type_text(raw),
{
    if raw == 0 {
        "Boot"
    } else if raw == 1 {
        "System"
    } else if raw == 2 {
        "Automatic"
    } else if raw == 3 {
        "Manual (Demand)"
    } else if raw == 4 {
        "Disabled"
    } else {
        "Unknown"
    }
}

/// The step of talking to the service manager at which a request failed.
#[derive(Clone, Copy, PartialEq, Eq, Debug, Structural)]
pub enum ServiceStage {
    OpenManager,
    OpenService,
    QueryStatus,
    Control,
}

/// A failed request to the service manager, with the system's error code.
#[derive(Clone, Copy, PartialEq, Eq, Debug, Structural)]
pub struct ServiceFault {
    pub stage: ServiceStage,
    pub code: u32,
}

/// The settled state a command is waiting for.
#[derive(Clone, Copy, PartialEq, Eq, Debug, Structural)]
pub enum ServiceGoal {
    Stopped,
    Running,
}

impl ServiceGoal {
    /// Whether a raw state is the one waited for.
    pub open spec fn met_by(self, raw: u32) -> bool {
        match self {
            ServiceGoal::Stopped => run_state_of(raw) == ServiceRunState::Stopped,
            ServiceGoal::Running => run_state_of(raw) == ServiceRunState::Running,
        }
    }

    /// Tells whether a raw state is the one waited for.
    pub fn is_met_by(self, raw: u32) -> (r: bool)
        ensures
            r == self.met_by(raw),
    {
        match self {
            ServiceGoal::Stopped => raw == SERVICE_STOPPED,
            ServiceGoal::Running => raw == SERVICE_RUNNING,
        }
    }
}

/// What to do after one reading of the run state.
#[derive(Clone, Copy, PartialEq, Eq, Debug, Structural)]
pub enum WaitVerdict {
    /// The service is in the state waited for.
    Reached,
    /// Pause and read the state again.
    PollAgain,
    /// The last permitted reading did not show the state waited for.
    TimedOut,
}

/// The verdict on the `polls`-th reading (counted from one) of the run
/// state; a reading that failed is `None` and never meets the goal.
pub open spec fn wait_verdict(goal: ServiceGoal, polls: int, reading: Option<u32>) -> WaitVerdict {
    if reading is Some && goal.met_by(reading->0) {
        WaitVerdict::Reached
    } else if polls < POLL_ATTEMPTS {
        WaitVerdict::PollAgain
    } else {
        WaitVerdict::TimedOut
    }
}

/// Judges the `polls`-th reading of the run state.
pub fn poll_verdict(goal: ServiceGoal, polls: u32, reading: Option<u32>) -> (verdict: WaitVerdict)
    ensures
        verdict == wait_verdict(goal, polls as int, reading),
{
    let met = match reading {
        Some(raw) => goal.is_met_by(raw),
        None => false,
    };
    if met {
        WaitVerdict::Reached
    } else if polls < POLL_ATTEMPTS {
        WaitVerdict::PollAgain
    } else {
        WaitVerdict::TimedOut
    }
}

/// Where a command that stops or starts the service stands.
#[derive(Clone, Copy, PartialEq, Eq, Debug, Structural)]
pub enum SwitchPhase {
    AwaitElevation,
    AwaitState,
    AwaitControl,
    AwaitGoal,
    Finished,
}

/// Why a command that stops or starts the service failed.
#[derive(Clone, Copy, PartialEq, Eq, Debug, Structural)]
pub enum SwitchError {
    /// Whether the process is elevated could not be determined.
    ElevationUnknown { code: u32 },
    NotElevated,
    /// The state of the service could not be read.
    Unavailable { fault: ServiceFault },
    /// The service refused the request.
    Rejected { fault: ServiceFault },
    /// The service did not settle within the permitted readings.
    TimedOut,
}

/// How a command that stops or starts the service ended.
#[derive(Clone, Copy, PartialEq, Eq, Debug, Structural)]
pub enum SwitchOutcome {
    /// The service was in the wanted state before anything was asked of it.
    AlreadyThere,
    Reached,
    Failed { error: SwitchError },
}

/// What the caller is to do next.
#[derive(Clone, Copy, PartialEq, Eq, Debug, Structural)]
pub enum SwitchAction {
    CheckElevation,
    QueryService,
    /// Ask the service to stop, or to start, as the goal says.
    SendControl { goal: ServiceGoal },
    /// Pause for the given time, then read the state of the service.
    PollService { delay_ms: u64 },
    Finish { outcome: SwitchOutcome },
    /// The report does not answer what the command is waiting for; nothing
    /// changed.
    OutOfTurn,
}

/// The state of a command that stops or starts the service.
pub struct SwitchModel {
    pub goal: ServiceGoal,
    pub phase: SwitchPhase,
    /// Readings taken while waiting.
    pub polls: nat,
}

impl SwitchModel {
    /// What holds of every state a command can reach.
    pub open spec fn wf(self) -> bool {
        &&& self.polls <= POLL_ATTEMPTS
        &&& (self.phase == SwitchPhase::AwaitGoal ==> self.polls < POLL_ATTEMPTS)
    }

    /// The command ends with the given outcome.
    pub open spec fn finish(self, outcome: SwitchOutcome) -> (SwitchModel, SwitchAction) {
        (SwitchModel { phase: SwitchPhase::Finished, ..self }, SwitchAction::Finish { outcome })
    }

    /// A command begins by checking the privileges.
    pub open spec fn start(goal: ServiceGoal) -> (SwitchModel, SwitchAction) {
        (
            SwitchModel { goal, phase: SwitchPhase::AwaitElevation, polls: 0 },
            SwitchAction::CheckElevation,
        )
    }

    /// Whether the process is elevated: only an elevated process goes on.
    pub open spec fn on_elevation(self, result: Result<bool, u32>) -> (SwitchModel, SwitchAction) {
        if self.phase != SwitchPhase::AwaitElevation {
            (self, SwitchAction::OutOfTurn)
        } else {
            match result {
                Err(code) => self.finish(
                    SwitchOutcome::Failed { error: SwitchError::ElevationUnknown { code } },
                ),
                Ok(false) => self.finish(SwitchOutcome::Failed { error: SwitchError::NotElevated }),
                Ok(true) => (
                    SwitchModel { phase: SwitchPhase::AwaitState, ..self },
                    SwitchAction::QueryService,
                ),
            }
        }
    }

    /// A reading of the service's state: the first one decides whether
    /// anything has to be asked of the service; later ones are counted
    /// against the permitted number.
    pub open spec fn on_state(self, result: Result<u32, ServiceFault>) -> (
        SwitchModel,
        SwitchAction,
    ) {
        if self.phase == SwitchPhase::AwaitState {
            match result {
                Err(fault) => self.finish(
                    SwitchOutcome::Failed { error: SwitchError::Unavailable { fault } },
                ),
                Ok(raw) => if self.goal.met_by(raw) {
                    self.finish(SwitchOutcome::AlreadyThere)
                } else {
                    (
                        SwitchModel { phase: SwitchPhase::AwaitControl, ..self },
                        SwitchAction::SendControl { goal: self.goal },
                    )
                },
            }
        } else if self.phase == SwitchPhase::AwaitGoal {
            let counted = SwitchModel { polls: self.polls + 1, ..self };
            let reading = match result {
                Ok(raw) => Some(raw),
                Err(_) => None,
            };
            match wait_verdict(self.goal, self.polls as int + 1, reading) {
                WaitVerdict::Reached => counted.finish(SwitchOutcome::Reached),
                WaitVerdict::PollAgain => (
                    counted,
                    SwitchAction::PollService { delay_ms: POLL_INTERVAL_MS },
                ),
                WaitVerdict::TimedOut => counted.finish(
                    SwitchOutcome::Failed { error: SwitchError::TimedOut },
                ),
            }
        } else {
            (self, SwitchAction::OutOfTurn)
        }
    }

    /// The answer to the request: a refusal ends the command, an acceptance
    /// begins the wait.
    pub open spec fn on_control(self, result: Result<(), ServiceFault>) -> (
        SwitchModel,
        SwitchAction,
    ) {
        if self.phase != SwitchPhase::AwaitControl {
            (self, SwitchAction::OutOfTurn)
        } else {
            match result {
                Err(fault) => self.finish(
                    SwitchOutcome::Failed { error: SwitchError::Rejected { fault } },
                ),
                Ok(_) => (
                    SwitchModel { phase: SwitchPhase::AwaitGoal, polls: 0, ..self },
                    SwitchAction::PollService { delay_ms: POLL_INTERVAL_MS },
                ),
            }
        }
    }
}

/// A command that stops or starts the service.
#[derive(Debug)]
pub struct ServiceSwitch {
    goal: ServiceGoal,
    phase: SwitchPhase,
    polls: u32,
}

impl View for ServiceSwitch {
    type V = SwitchModel;

    closed spec fn view(&self) -> SwitchModel {
        SwitchModel { goal: self.goal, phase: self.phase, polls: self.polls as nat }
    }
}

impl ServiceSwitch {
    /// Whether the command is in a state that a command can reach.
    pub open spec fn wf(&self) -> bool {
        self@.wf()
    }

    /// Begins a command that brings the service to the given state.
    pub fn new(goal: ServiceGoal) -> (r: (ServiceSwitch, SwitchAction))
        ensures
            (r.0@, r.1) == SwitchModel::start(goal),
            r.0.wf(),
    {
        (
            ServiceSwitch { goal, phase: SwitchPhase::AwaitElevation, polls: 0 },
            SwitchAction::CheckElevation,
        )
    }

    /// Where the command stands.
    pub fn phase(&self) -> (phase: SwitchPhase)
        ensures
            phase == self@.phase,
    {
        self.phase
    }

    fn finish(&mut self, outcome: SwitchOutcome) -> (action: SwitchAction)
        ensures
            (final(self)@, action) == old(self)@.finish(outcome),
    {
        self.phase = SwitchPhase::Finished;
        SwitchAction::Finish { outcome }
    }

    /// Takes in whether the process is elevated.
    pub fn on_elevation(&mut self, result: Result<bool, u32>) -> (action: SwitchAction)
        requires
            old(self).wf(),
        ensures
            (final(self)@, action) == old(self)@.on_elevation(result),
            final(self).wf(),
    {
        if self.phase != SwitchPhase::AwaitElevation {
            return SwitchAction::OutOfTurn;
        }
        match result {
            Err(code) => self.finish(
                SwitchOutcome::Failed { error: SwitchError::ElevationUnknown { code } },
            ),
            Ok(false) => self.finish(SwitchOutcome::Failed { error: SwitchError::NotElevated }),
            Ok(true) => {
                self.phase = SwitchPhase::AwaitState;
                SwitchAction::QueryService
            },
        }
    }

    /// Takes in a reading of the service's state, or why it could not be
    /// read.
    pub fn on_state(&mut self, result: Result<u32, ServiceFault>) -> (action: SwitchAction)
        requires
            old(self).wf(),
        ensures
            (final(self)@, action) == old(self)@.on_state(result),
            final(self).wf(),
    {
        match self.phase {
            SwitchPhase::AwaitState => match result {
                Err(fault) => self.finish(
                    SwitchOutcome::Failed { error: SwitchError::Unavailable { fault } },
                ),
                Ok(raw) => {
                    if self.goal.is_met_by(raw) {
                        self.finish(SwitchOutcome::AlreadyThere)
                    } else {
                        self.phase = SwitchPhase::AwaitControl;
                        SwitchAction::SendControl { goal: self.goal }
                    }
                },
            },
            SwitchPhase::AwaitGoal => {
                self.polls = self.polls + 1;
                let reading = match result {
                    Ok(raw) => Some(raw),
                    Err(_) => None,
                };
                match poll_verdict(self.goal, self.polls, reading) {
                    WaitVerdict::Reached => self.finish(SwitchOutcome::Reached),
                    WaitVerdict::PollAgain => SwitchAction::PollService {
                        delay_ms: POLL_INTERVAL_MS,
                    },
                    WaitVerdict::TimedOut => self.finish(
                        SwitchOutcome::Failed { error: SwitchError::TimedOut },
                    ),
                }
            },
            _ => SwitchAction::OutOfTurn,
        }
    }

    /// Takes in the answer to the stop or start request.
    pub fn on_control(&mut self, result: Result<(), ServiceFault>) -> (action: SwitchAction)
        requires
            old(self).wf(),
        ensures
            (final(self)@, action) == old(self)@.on_control(result),
            final(self).wf(),
    {
        if self.phase != SwitchPhase::AwaitControl {
            return SwitchAction::OutOfTurn;
        }
        match result {
            Err(fault) => self.finish(
                SwitchOutcome::Failed { error: SwitchError::Rejected { fault } },
            ),
            Ok(_) => {
                self.phase = SwitchPhase::AwaitGoal;
                self.polls = 0;
                SwitchAction::PollService { delay_ms: POLL_INTERVAL_MS }
            },
        }
    }
}

/// The wait for the service is bounded: every reading that is asked for is
/// counted, and the count never exceeds the permitted number. A service that
/// never settles therefore ends the command with a timeout after exactly
/// that many readings.
pub proof fn lemma_wait_is_bounded(m: SwitchModel, result: Result<u32, ServiceFault>)
    requires
        m.wf(),
        m.phase == SwitchPhase::AwaitGoal,
    ensures
        m.on_state(result).0.polls == m.polls + 1,
        m.on_state(result).0.wf(),
        m.on_state(result).1 is PollService ==> m.polls + 1 < POLL_ATTEMPTS,
        m.polls + 1 == POLL_ATTEMPTS ==> m.on_state(result).1 is Finish,
{
}

} // verus!
