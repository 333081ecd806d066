//! Enrolling a finger: begin, one capture for each touch until the template
//! is complete, then commit; or discard when the attempt is given up.
//!
//! The caller makes each call to the sensor and reports its raw status; what
//! the status means and what follows is decided here.

use vstd::prelude::*;

verus! {

/// Most captures one attempt may make.
pub const MAX_SAMPLES: u32 = 20;

/// Status of a capture that completed the template.
pub const STATUS_COMPLETE: u32 = 0;

/// Status of a good capture after which more are needed.
pub const STATUS_MORE_DATA: u32 = 0x0009_0001;

/// Status of a capture that was unusable and may be repeated.
pub const STATUS_BAD_CAPTURE: u32 = 0x8009_8008;

/// Status of a commit for a finger that is enrolled already.
pub const STATUS_DUPLICATE_ENROLLMENT: u32 = 0x8009_8015;

/// Lowest and highest finger position that can be enrolled.
pub const FIRST_FINGER: u8 = 1;

/// Highest finger position that can be enrolled.
pub const LAST_FINGER: u8 = 10;

/// What the status of one capture means for the attempt.
#[derive(Clone, Copy, PartialEq, Eq, Debug, Structural)]
pub enum CaptureStatus {
    /// The template is finished.
    Complete,
    /// The sample was good and another touch is needed.
    MoreData,
    /// The sample was unusable; the touch is to be repeated.
    BadCapture,
    /// Anything else ends the attempt; the status is kept as it came.
    Other { code: u32 },
}

/// What a raw capture status means.
pub open spec fn capture_status_of(code: u32) -> CaptureStatus {
    if code == STATUS_COMPLETE {
        CaptureStatus::Complete
    } else if code == STATUS_MORE_DATA {
        CaptureStatus::MoreData
    } else if code == STATUS_BAD_CAPTURE {
        CaptureStatus::BadCapture
    } else {
        CaptureStatus::Other { code }
    }
}

/// Tells the three statuses that keep an attempt alive from all others.
pub fn classify_capture(code: u32) -> (status: CaptureStatus)
    ensures
        status == capture_status_of(code),
{
    if code == STATUS_COMPLETE {
        CaptureStatus::Complete
    } else if code == STATUS_MORE_DATA {
        CaptureStatus::MoreData
    } else if code == STATUS_BAD_CAPTURE {
        CaptureStatus::BadCapture
    } else {
        CaptureStatus::Other { code }
    }
}

/// Whether a finger position can be enrolled.
pub open spec fn enrollable(finger: u8) -> bool {
    FIRST_FINGER <= finger <= LAST_FINGER
}

/// Tells whether a finger position can be enrolled.
pub fn is_enrollable(finger: u8) -> (r: bool)
    ensures
        r == enrollable(finger),
{
    FIRST_FINGER <= finger && finger <= LAST_FINGER
}

/// Where an attempt stands.
#[derive(Clone, Copy, PartialEq, Eq, Debug, Structural)]
pub enum EnrollState {
    /// Begin has been asked for and not yet confirmed.
    Idle,
    /// Begun; the first capture has been asked for.
    Begun,
    /// At least one capture has been taken in and another asked for.
    Capturing,
    /// The template is complete; commit has been asked for.
    Committing,
    /// The attempt is given up; discard has been asked for.
    Discarding,
    Committed,
    Discarded,
    Failed,
}

/// Why an attempt failed.
#[derive(Clone, Copy, PartialEq, Eq, Debug, Structural)]
pub enum EnrollError {
    InvalidFinger { finger: u8 },
    /// No sensor unit is present.
    NoSensorUnit,
    BeginFailed { code: u32 },
    /// A capture ended with a status that is none of the three known ones.
    CaptureFailed { code: u32 },
    CommitFailed { code: u32 },
}

/// How an attempt ended.
#[derive(Clone, Copy, PartialEq, Eq, Debug, Structural)]
pub enum EnrollOutcome {
    Enrolled { is_new_template: bool },
    /// The permitted captures were used up without a complete template.
    TooManyAttempts,
    /// The finger is enrolled already.
    AlreadyEnrolled,
    /// The caller gave the attempt up.
    Abandoned,
    Failed { error: EnrollError },
}

/// What the caller is to do next.
#[derive(Clone, Copy, PartialEq, Eq, Debug, Structural)]
pub enum EnrollAction {
    Begin { session: u32, finger: u8, unit_id: u32 },
    /// Wait for a touch; `sample` counts the captures from one.
    Capture { session: u32, sample: u32 },
    Commit { session: u32 },
    Discard { session: u32 },
    /// The attempt is over.
    Done { outcome: EnrollOutcome },
    /// The report does not answer what the attempt is waiting for; nothing
    /// changed.
    OutOfTurn,
}

/// What the caller reports back.
#[allow(inconsistent_fields)]
#[derive(Clone, Copy, Debug)]
pub enum EnrollEvent {
    Begun { result: Result<(), u32> },
    Captured { status: u32, reject_detail: u32 },
    /// `Ok` tells whether a new template was created.
    Committed { result: Result<bool, u32> },
    Discarded,
    /// The caller gives the attempt up.
    Abandon,
}

/// The state of an attempt.
pub struct AttemptModel {
    pub session: u32,
    pub finger: u8,
    pub unit_id: u32,
    pub state: EnrollState,
    /// Captures asked for so far.
    pub samples: nat,
    /// Captures that were rejected as unusable.
    pub rejections: nat,
    /// Why the last unusable capture was rejected.
    pub last_reject_detail: Option<u32>,
    /// While discarding: how the attempt ends once discard has returned.
    /// After the end: how it ended.
    pub outcome: Option<EnrollOutcome>,
}

/// The terminal state that belongs to an outcome.
pub open spec fn final_state(outcome: EnrollOutcome) -> EnrollState {
    match outcome {
        EnrollOutcome::Enrolled { .. } => EnrollState::Committed,
        EnrollOutcome::TooManyAttempts => EnrollState::Discarded,
        EnrollOutcome::AlreadyEnrolled => EnrollState::Discarded,
        EnrollOutcome::Abandoned => EnrollState::Discarded,
        EnrollOutcome::Failed { .. } => EnrollState::Failed,
    }
}

impl AttemptModel {
    /// What holds of every state an attempt can reach.
    pub open spec fn wf(self) -> bool {
        &&& self.samples <= MAX_SAMPLES
        &&& self.rejections <= self.samples
        &&& (self.state == EnrollState::Idle ==> self.samples == 0)
        &&& (self.state == EnrollState::Begun || self.state == EnrollState::Capturing
            ==> self.rejections < self.samples)
        &&& (self.state == EnrollState::Discarding ==> self.outcome is Some)
    }

    /// Whether the attempt has ended.
    pub open spec fn is_over(self) -> bool {
        self.state == EnrollState::Committed || self.state == EnrollState::Discarded || self.state
            == EnrollState::Failed
    }

    /// The attempt ends with the given outcome.
    pub open spec fn done(self, outcome: EnrollOutcome) -> (AttemptModel, EnrollAction) {
        (
            AttemptModel { state: final_state(outcome), outcome: Some(outcome), ..self },
            EnrollAction::Done { outcome },
        )
    }

    /// The attempt is given up: discard first, the outcome afterwards.
    pub open spec fn give_up(self, outcome: EnrollOutcome) -> (AttemptModel, EnrollAction) {
        (
            AttemptModel { state: EnrollState::Discarding, outcome: Some(outcome), ..self },
            EnrollAction::Discard { session: self.session },
        )
    }

    /// The start of an attempt for a finger on the first of the given
    /// sensor units. A finger position outside one to ten, or no unit at
    /// all, fails at once.
    pub open spec fn begin(session: u32, finger: u8, units: Seq<u32>) -> (
        AttemptModel,
        EnrollAction,
    ) {
        let fresh = AttemptModel {
            session,
            finger,
            unit_id: if units.len() > 0 {
                units[0]
            } else {
                0
            },
            state: EnrollState::Idle,
            samples: 0,
            rejections: 0,
            last_reject_detail: None,
            outcome: None,
        };
        if !enrollable(finger) {
            fresh.done(EnrollOutcome::Failed { error: EnrollError::InvalidFinger { finger } })
        } else if units.len() == 0 {
            fresh.done(EnrollOutcome::Failed { error: EnrollError::NoSensorUnit })
        } else {
            (fresh, EnrollAction::Begin { session, finger, unit_id: units[0] })
        }
    }

    /// The result of begin: a failure ends the attempt, a success asks for the
    /// first capture.
    pub open spec fn on_begun(self, result: Result<(), u32>) -> (AttemptModel, EnrollAction) {
        if self.state != EnrollState::Idle {
            (self, EnrollAction::OutOfTurn)
        } else {
            match result {
                Err(code) => self.done(
                    EnrollOutcome::Failed { error: EnrollError::BeginFailed { code } },
                ),
                Ok(_) => (
                    AttemptModel { state: EnrollState::Begun, samples: 1, ..self },
                    EnrollAction::Capture { session: self.session, sample: 1 },
                ),
            }
        }
    }

    /// After a capture that leaves the template unfinished: another capture
    /// while the permitted number is not used up, else the attempt is given
    /// up.
    pub open spec fn another(self) -> (AttemptModel, EnrollAction) {
        if self.samples >= MAX_SAMPLES {
            self.give_up(EnrollOutcome::TooManyAttempts)
        } else {
            (
                AttemptModel {
                    state: EnrollState::Capturing,
                    samples: self.samples + 1,
                    ..self
                },
                EnrollAction::Capture {
                    session: self.session,
                    sample: (self.samples + 1) as u32,
                },
            )
        }
    }

    /// The result of one capture, judged by its status.
    pub open spec fn on_capture(self, status: u32, reject_detail: u32) -> (
        AttemptModel,
        EnrollAction,
    ) {
        if self.state != EnrollState::Begun && self.state != EnrollState::Capturing {
            (self, EnrollAction::OutOfTurn)
        } else {
            match capture_status_of(status) {
                CaptureStatus::Complete => (
                    AttemptModel { state: EnrollState::Committing, ..self },
                    EnrollAction::Commit { session: self.session },
                ),
                CaptureStatus::MoreData => self.another(),
                CaptureStatus::BadCapture => AttemptModel {
                    rejections: self.rejections + 1,
                    last_reject_detail: Some(reject_detail),
                    ..self
                }.another(),
                CaptureStatus::Other { code } => self.give_up(
                    EnrollOutcome::Failed { error: EnrollError::CaptureFailed { code } },
                ),
            }
        }
    }

    /// The result of commit: success ends the attempt; any failure gives it
    /// up, and a finger that is enrolled already is no error.
    pub open spec fn on_commit(self, result: Result<bool, u32>) -> (AttemptModel, EnrollAction) {
        if self.state != EnrollState::Committing {
            (self, EnrollAction::OutOfTurn)
        } else {
            match result {
                Ok(is_new_template) => self.done(EnrollOutcome::Enrolled { is_new_template }),
                Err(code) => if code == STATUS_DUPLICATE_ENROLLMENT {
                    self.give_up(EnrollOutcome::AlreadyEnrolled)
                } else {
                    self.give_up(
                        EnrollOutcome::Failed { error: EnrollError::CommitFailed { code } },
                    )
                },
            }
        }
    }

    /// Discard has returned; whether it succeeded does not matter.
    pub open spec fn on_discard(self) -> (AttemptModel, EnrollAction) {
        if self.state != EnrollState::Discarding || self.outcome is None {
            (self, EnrollAction::OutOfTurn)
        } else {
            self.done(self.outcome->0)
        }
    }

    /// The caller gives the attempt up: from any state after begin the
    /// subsystem's enrollment is discarded first; before begin is confirmed
    /// there is nothing to discard; an attempt that is over or being
    /// discarded already is left as it is.
    pub open spec fn abandon(self) -> (AttemptModel, EnrollAction) {
        if self.state == EnrollState::Begun || self.state == EnrollState::Capturing || self.state
            == EnrollState::Committing {
            self.give_up(EnrollOutcome::Abandoned)
        } else if self.state == EnrollState::Idle {
            self.done(EnrollOutcome::Abandoned)
        } else {
            (self, EnrollAction::OutOfTurn)
        }
    }

    /// One step of an attempt.
    pub open spec fn step(self, event: EnrollEvent) -> (AttemptModel, EnrollAction) {
        match event {
            EnrollEvent::Abandon => self.abandon(),
            EnrollEvent::Begun { result } => self.on_begun(result),
            EnrollEvent::Captured { status, reject_detail } => self.on_capture(
                status,
                reject_detail,
            ),
            EnrollEvent::Committed { result } => self.on_commit(result),
            EnrollEvent::Discarded => self.on_discard(),
        }
    }
}

/// One attempt to enroll a finger.
#[derive(Debug, PartialEq, Eq)]
pub struct EnrollmentAttempt {
    session: u32,
    finger: u8,
    unit_id: u32,
    state: EnrollState,
    samples: u32,
    rejections: u32,
    last_reject_detail: Option<u32>,
    outcome: Option<EnrollOutcome>,
}

impl View for EnrollmentAttempt {
    type V = AttemptModel;

    closed spec fn view(&self) -> AttemptModel {
        AttemptModel {
            session: self.session,
            finger: self.finger,
            unit_id: self.unit_id,
            state: self.state,
            samples: self.samples as nat,
            rejections: self.rejections as nat,
            last_reject_detail: self.last_reject_detail,
            outcome: self.outcome,
        }
    }
}

impl EnrollmentAttempt {
    /// Whether the attempt is in a state that an attempt can reach.
    pub open spec fn wf(&self) -> bool {
        self@.wf()
    }

    /// Starts an attempt for a finger on the first of the sensor units that
    /// were found, and says what to do first.
    pub fn begin(session: u32, finger: u8, units: &Vec<u32>) -> (r: (
        EnrollmentAttempt,
        EnrollAction,
    ))
        ensures
            (r.0@, r.1) == AttemptModel::begin(session, finger, units@),
            r.0.wf(),
    {
        let mut attempt = EnrollmentAttempt {
            session,
            finger,
            unit_id: if units.len() > 0 {
                units[0]
            } else {
                0
            },
            state: EnrollState::Idle,
            samples: 0,
            rejections: 0,
            last_reject_detail: None,
            outcome: None,
        };
        if !is_enrollable(finger) {
            let action = attempt.done(
                EnrollOutcome::Failed { error: EnrollError::InvalidFinger { finger } },
            );
            (attempt, action)
        } else if units.len() == 0 {
            let action = attempt.done(
                EnrollOutcome::Failed { error: EnrollError::NoSensorUnit },
            );
            (attempt, action)
        } else {
            let unit_id = units[0];
            (attempt, EnrollAction::Begin { session, finger, unit_id })
        }
    }

    /// Where the attempt stands.
    pub fn state(&self) -> (state: EnrollState)
        ensures
            state == self@.state,
    {
        self.state
    }

    /// The finger position that is enrolled.
    pub fn finger(&self) -> (finger: u8)
        ensures
            finger == self@.finger,
    {
        self.finger
    }

    /// The sensor unit the attempt runs on.
    pub fn unit_id(&self) -> (unit_id: u32)
        ensures
            unit_id == self@.unit_id,
    {
        self.unit_id
    }

    /// Captures asked for so far.
    pub fn samples(&self) -> (samples: u32)
        ensures
            samples == self@.samples,
    {
        self.samples
    }

    /// Captures that were rejected as unusable.
    pub fn rejections(&self) -> (rejections: u32)
        ensures
            rejections == self@.rejections,
    {
        self.rejections
    }

    /// Why the last unusable capture was rejected.
    pub fn last_reject_detail(&self) -> (detail: Option<u32>)
        ensures
            detail == self@.last_reject_detail,
    {
        self.last_reject_detail
    }

    /// How the attempt ended, once it is over.
    pub fn outcome(&self) -> (outcome: Option<EnrollOutcome>)
        ensures
            outcome == (if self@.is_over() {
                self@.outcome
            } else {
                None
            }),
    {
        match self.state {
            EnrollState::Committed | EnrollState::Discarded | EnrollState::Failed => self.outcome,
            _ => None,
        }
    }

    fn done(&mut self, outcome: EnrollOutcome) -> (action: EnrollAction)
        ensures
            (final(self)@, action) == old(self)@.done(outcome),
    {
        self.state = match outcome {
            EnrollOutcome::Enrolled { .. } => EnrollState::Committed,
            EnrollOutcome::TooManyAttempts => EnrollState::Discarded,
            EnrollOutcome::AlreadyEnrolled => EnrollState::Discarded,
            EnrollOutcome::Abandoned => EnrollState::Discarded,
            EnrollOutcome::Failed { .. } => EnrollState::Failed,
        };
        self.outcome = Some(outcome);
        EnrollAction::Done { outcome }
    }

    fn give_up(&mut self, outcome: EnrollOutcome) -> (action: EnrollAction)
        ensures
            (final(self)@, action) == old(self)@.give_up(outcome),
    {
        self.state = EnrollState::Discarding;
        self.outcome = Some(outcome);
        EnrollAction::Discard { session: self.session }
    }

    fn another(&mut self) -> (action: EnrollAction)
        requires
            old(self).samples <= MAX_SAMPLES,
        ensures
            (final(self)@, action) == old(self)@.another(),
    {
        if self.samples >= MAX_SAMPLES {
            self.give_up(EnrollOutcome::TooManyAttempts)
        } else {
            self.state = EnrollState::Capturing;
            self.samples = self.samples + 1;
            EnrollAction::Capture { session: self.session, sample: self.samples }
        }
    }

    /// Takes in the result of begin.
    pub fn on_begun(&mut self, result: Result<(), u32>) -> (action: EnrollAction)
        requires
            old(self).wf(),
        ensures
            (final(self)@, action) == old(self)@.on_begun(result),
            final(self).wf(),
    {
        if self.state != EnrollState::Idle {
            return EnrollAction::OutOfTurn;
        }
        match result {
            Err(code) => self.done(
                EnrollOutcome::Failed { error: EnrollError::BeginFailed { code } },
            ),
            Ok(_) => {
                self.state = EnrollState::Begun;
                self.samples = 1;
                EnrollAction::Capture { session: self.session, sample: 1 }
            },
        }
    }

    /// Takes in the raw status of one capture and the reason the sensor gave
    /// in case it rejected the sample.
    pub fn on_capture(&mut self, status: u32, reject_detail: u32) -> (action: EnrollAction)
        requires
            old(self).wf(),
        ensures
            (final(self)@, action) == old(self)@.on_capture(status, reject_detail),
            final(self).wf(),
    {
        if self.state != EnrollState::Begun && self.state != EnrollState::Capturing {
            return EnrollAction::OutOfTurn;
        }
        match classify_capture(status) {
            CaptureStatus::Complete => {
                self.state = EnrollState::Committing;
                EnrollAction::Commit { session: self.session }
            },
            CaptureStatus::MoreData => self.another(),
            CaptureStatus::BadCapture => {
                self.rejections = self.rejections + 1;
                self.last_reject_detail = Some(reject_detail);
                self.another()
            },
            CaptureStatus::Other { code } => self.give_up(
                EnrollOutcome::Failed { error: EnrollError::CaptureFailed { code } },
            ),
        }
    }

    /// Takes in the result of commit; `Ok` tells whether a new template was
    /// created.
    pub fn on_commit(&mut self, result: Result<bool, u32>) -> (action: EnrollAction)
        requires
            old(self).wf(),
        ensures
            (final(self)@, action) == old(self)@.on_commit(result),
            final(self).wf(),
    {
        if self.state != EnrollState::Committing {
            return EnrollAction::OutOfTurn;
        }
        match result {
            Ok(is_new_template) => self.done(EnrollOutcome::Enrolled { is_new_template }),
            Err(code) => {
                if code == STATUS_DUPLICATE_ENROLLMENT {
                    self.give_up(EnrollOutcome::AlreadyEnrolled)
                } else {
                    self.give_up(
                        EnrollOutcome::Failed { error: EnrollError::CommitFailed { code } },
                    )
                }
            },
        }
    }

    /// Takes in that discard has returned, with whatever result.
    pub fn on_discard(&mut self) -> (action: EnrollAction)
        requires
            old(self).wf(),
        ensures
            (final(self)@, action) == old(self)@.on_discard(),
            final(self).wf(),
    {
        if self.state != EnrollState::Discarding {
            return EnrollAction::OutOfTurn;
        }
        match self.outcome {
            Some(outcome) => self.done(outcome),
            None => EnrollAction::OutOfTurn,
        }
    }

    /// Gives the attempt up.
    pub fn abandon(&mut self) -> (action: EnrollAction)
        requires
            old(self).wf(),
        ensures
            (final(self)@, action) == old(self)@.abandon(),
            final(self).wf(),
    {
        match self.state {
            EnrollState::Begun | EnrollState::Capturing | EnrollState::Committing => self.give_up(
                EnrollOutcome::Abandoned,
            ),
            EnrollState::Idle => self.done(EnrollOutcome::Abandoned),
            _ => EnrollAction::OutOfTurn,
        }
    }

    /// Takes in any report.
    pub fn step(&mut self, event: EnrollEvent) -> (action: EnrollAction)
        requires
            old(self).wf(),
        ensures
            (final(self)@, action) == old(self)@.step(event),
            final(self).wf(),
    {
        match event {
            EnrollEvent::Begun { result } => self.on_begun(result),
            EnrollEvent::Captured { status, reject_detail } => self.on_capture(
                status,
                reject_detail,
            ),
            EnrollEvent::Committed { result } => self.on_commit(result),
            EnrollEvent::Discarded => self.on_discard(),
            EnrollEvent::Abandon => self.abandon(),
        }
    }
}

/// The result of one capture: its raw status and the reason given for a
/// rejection.
pub struct CaptureReport {
    pub status: u32,
    pub reject_detail: u32,
}

/// Whether a capture leaves the template unfinished and the attempt alive.
pub open spec fn keeps_going(report: CaptureReport) -> bool {
    capture_status_of(report.status) == CaptureStatus::MoreData || capture_status_of(
        report.status,
    ) == CaptureStatus::BadCapture
}

/// Whether every one of the captures leaves the template unfinished.
pub open spec fn all_keep_going(reports: Seq<CaptureReport>) -> bool {
    forall|i: int| 0 <= i < reports.len() ==> keeps_going(#[trigger] reports[i])
}

/// How many of the captures were rejected as unusable.
pub open spec fn rejected_among(reports: Seq<CaptureReport>) -> nat
    decreases reports.len(),
{
    if reports.len() == 0 {
        0
    } else {
        rejected_among(reports.drop_last()) + if capture_status_of(reports.last().status)
            == CaptureStatus::BadCapture {
            1nat
        } else {
            0nat
        }
    }
}

/// The attempt after the given captures have been taken in, in order.
pub open spec fn after_captures(m: AttemptModel, reports: Seq<CaptureReport>) -> AttemptModel
    decreases reports.len(),
{
    if reports.len() == 0 {
        m
    } else {
        after_captures(m, reports.drop_last()).on_capture(
            reports.last().status,
            reports.last().reject_detail,
        ).0
    }
}

/// What the attempt asks for on each of the given captures, in order.
pub open spec fn capture_actions(m: AttemptModel, reports: Seq<CaptureReport>) -> Seq<
    EnrollAction,
>
    decreases reports.len(),
{
    if reports.len() == 0 {
        Seq::empty()
    } else {
        capture_actions(m, reports.drop_last()).push(
            after_captures(m, reports.drop_last()).on_capture(
                reports.last().status,
                reports.last().reject_detail,
            ).1,
        )
    }
}

/// Every step leads from a reachable state to a reachable state.
pub proof fn lemma_step_keeps_wf(m: AttemptModel, event: EnrollEvent)
    requires
        m.wf(),
    ensures
        m.step(event).0.wf(),
{
}

/// Captures are counted: each one that is asked for carries the next
/// number, which never exceeds the permitted maximum, and no other step
/// changes the count. So no attempt asks for more than the maximum.
pub proof fn lemma_captures_are_counted(m: AttemptModel, event: EnrollEvent)
    requires
        m.wf(),
    ensures
        match m.step(event).1 {
            EnrollAction::Capture { session, sample } => {
                &&& session == m.session
                &&& sample == m.samples + 1
                &&& sample <= MAX_SAMPLES
                &&& m.step(event).0.samples == sample
            },
            _ => m.step(event).0.samples == m.samples,
        },
{
}

/// An attempt ends in failure only after discard was asked for, except
/// when it never began: a failed begin, an invalid finger or a missing
/// sensor leave nothing to discard.
pub proof fn lemma_failure_follows_discard(m: AttemptModel, event: EnrollEvent)
    requires
        m.wf(),
        !m.is_over(),
        m.step(event).1 matches EnrollAction::Done { outcome } && !(outcome
            is Enrolled),
    ensures
        m.state == EnrollState::Discarding || m.state == EnrollState::Idle,
{
}

/// While the captures leave the template unfinished and the permitted
/// number is not used up, each one is answered by asking for the next
/// capture, never by discard; every capture is counted and every rejection
/// is counted once.
pub proof fn lemma_unfinished_captures(m: AttemptModel, reports: Seq<CaptureReport>)
    requires
        m.wf(),
        m.state == EnrollState::Begun || m.state == EnrollState::Capturing,
        all_keep_going(reports),
        m.samples + reports.len() <= MAX_SAMPLES,
    ensures
        ({
            let end = after_captures(m, reports);
            let actions = capture_actions(m, reports);
            &&& end.wf()
            &&& end.state == (if reports.len() == 0 {
                m.state
            } else {
                EnrollState::Capturing
            })
            &&& end.samples == m.samples + reports.len()
            &&& end.rejections == m.rejections + rejected_among(reports)
            &&& end.session == m.session
            &&& actions.len() == reports.len()
            &&& forall|i: int|
                0 <= i < actions.len() ==> #[trigger] actions[i] == (EnrollAction::Capture {
                    session: m.session,
                    sample: (m.samples + i + 1) as u32,
                })
        }),
    decreases reports.len(),
{
    if reports.len() > 0 {
        let earlier = reports.drop_last();
        assert(all_keep_going(earlier)) by {
            assert forall|i: int| 0 <= i < earlier.len() implies keeps_going(
                #[trigger] earlier[i],
            ) by {
                assert(earlier[i] == reports[i]);
            }
        }
        lemma_unfinished_captures(m, earlier);
        assert(keeps_going(reports[reports.len() - 1]));
    }
}

/// An attempt that has begun, takes in fewer than the permitted number of
/// unfinished captures and then a complete one, and whose commit succeeds,
/// ends enrolled: it has asked for exactly one capture for each report,
/// counted each rejection once, and never asked for discard.
pub proof fn lemma_complete_template_is_committed(
    m: AttemptModel,
    reports: Seq<CaptureReport>,
    last: CaptureReport,
    is_new_template: bool,
)
    requires
        m.wf(),
        m.state == EnrollState::Begun,
        m.samples == 1,
        all_keep_going(reports),
        reports.len() < MAX_SAMPLES,
        capture_status_of(last.status) == CaptureStatus::Complete,
    ensures
        ({
            let ready = after_captures(m, reports).on_capture(last.status, last.reject_detail);
            let end = ready.0.on_commit(Ok(is_new_template));
            &&& forall|i: int|
                0 <= i < reports.len() ==> #[trigger] capture_actions(m, reports)[i]
                    is Capture
            &&& ready.1 == EnrollAction::Commit { session: m.session }
            &&& end.1 == EnrollAction::Done {
                outcome: EnrollOutcome::Enrolled { is_new_template },
            }
            &&& end.0.state == EnrollState::Committed
            &&& end.0.samples == reports.len() + 1
            &&& end.0.rejections == m.rejections + rejected_among(reports)
        }),
{
    lemma_unfinished_captures(m, reports);
}

/// An attempt whose captures never complete the template is given up when
/// the permitted number is used up: the last permitted capture is answered
/// by discard, and once discard has returned the attempt ends with "too many
/// attempts".
pub proof fn lemma_too_many_attempts(m: AttemptModel, reports: Seq<CaptureReport>)
    requires
        m.wf(),
        m.state == EnrollState::Begun,
        m.samples == 1,
        all_keep_going(reports),
        reports.len() == MAX_SAMPLES,
    ensures
        ({
            let given_up = after_captures(m, reports);
            let end = given_up.on_discard();
            &&& capture_actions(m, reports).last() == EnrollAction::Discard {
                session: m.session,
            }
            &&& forall|i: int|
                0 <= i < reports.len() - 1 ==> #[trigger] capture_actions(m, reports)[i]
                    is Capture
            &&& given_up.state == EnrollState::Discarding
            &&& given_up.samples == MAX_SAMPLES
            &&& end.1 == EnrollAction::Done { outcome: EnrollOutcome::TooManyAttempts }
            &&& end.0.state == EnrollState::Discarded
        }),
{
    let earlier = reports.drop_last();
    assert(all_keep_going(earlier)) by {
        assert forall|i: int| 0 <= i < earlier.len() implies keeps_going(#[trigger] earlier[i]) by {
            assert(earlier[i] == reports[i]);
        }
    }
    lemma_unfinished_captures(m, earlier);
    assert(keeps_going(reports[reports.len() - 1]));
    assert forall|i: int| 0 <= i < reports.len() - 1 implies #[trigger] capture_actions(
        m,
        reports,
    )[i] is Capture by {
        assert(capture_actions(m, reports)[i] == capture_actions(m, earlier)[i]);
    }
}

} // verus!
