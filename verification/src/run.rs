//! The run: the schedule's gate, then the authorization flow, then the
//! credential handed out, then the one volume call.
//!
//! Like the flow it drives, the controller decides and keeps state. Its
//! caller carries out each [`RunAction`] and reports back with a
//! [`RunEvent`].

use vstd::prelude::*;

use crate::auth::{
    auth_entry, auth_step, AuthAction, AuthActionView, AuthConfig, AuthError, AuthEvent,
    AuthEventView, AuthStateView, AuthorizationFlow, AuthorizationRequest,
    AuthorizationRequestView,
};
use crate::civil::{
    copenhagen_clock, local_date_time, local_reading, FIRST_COMMON_SECOND, LAST_COMMON_SECOND,
};
use crate::credential::{
    copy_optional_string, optional_text, standing_at, Credential, CredentialSlot, CredentialView,
    SlotHandle, Standing, Timestamp,
};
use crate::listener::{ListenerView, Reply};
use crate::schedule::{LocalDateTime, ScheduleDecision, SchedulePolicy, MAX_VOLUME};

verus! {

/// What the run reads of a playback device: the identifier that a volume
/// call is addressed to. Some devices have none.
#[derive(Debug, PartialEq, Eq)]
pub struct Device {
    pub id: Option<String>,
}

/// A device as the contracts see it.
pub struct DeviceView {
    pub id: Option<Seq<char>>,
}

impl View for Device {
    type V = DeviceView;

    open spec fn view(&self) -> DeviceView {
        DeviceView { id: optional_text(self.id) }
    }
}

/// The views of a list of devices, in the order of the list.
pub open spec fn device_views(devices: Seq<Device>) -> Seq<DeviceView> {
    devices.map_values(|d: Device| d@)
}

/// What went wrong on the device side. None of these ends the run in
/// failure: the credential has been handed out by then.
#[derive(Clone, Copy, Debug, PartialEq, Eq, Structural)]
pub enum DeviceApiError {
    /// The devices could not be listed.
    ListFailed,
    /// The list of devices was empty.
    NoDevice,
    /// The volume call was refused.
    VolumeFailed,
}

/// How a run ended.
#[derive(Clone, Copy, Debug, PartialEq, Eq, Structural)]
pub enum RunOutcome {
    /// A rest day: nothing was done.
    Skipped,
    /// The credential was handed out; the device side went well or failed
    /// with the given error.
    Completed(Option<DeviceApiError>),
    /// No credential could be had.
    Failed(AuthError),
}

impl RunOutcome {
    pub open spec fn exit_status(self) -> u8 {
        match self {
            RunOutcome::Failed(_) => 1u8,
            _ => 0u8,
        }
    }

    /// The exit status of the process: 0 unless no credential could be had.
    pub fn exit_code(self) -> (code: u8)
        ensures
            code == self.exit_status(),
            code == 0 <==> !(self is Failed),
    {
        match self {
            RunOutcome::Failed(_) => 1,
            _ => 0,
        }
    }
}

/// What the caller reports to the controller.
#[derive(Debug, PartialEq, Eq)]
pub enum RunEvent {
    /// Something that concerns the authorization flow.
    Auth(AuthEvent),
    /// The credential has been handed out.
    Emitted,
    /// The devices were listed, or could not be.
    Devices(Option<Vec<Device>>),
    /// The volume call went through, or did not.
    VolumeSet(bool),
}

/// An event as the contracts see it.
pub enum RunEventView {
    Auth(AuthEventView),
    Emitted,
    Devices(Option<Seq<DeviceView>>),
    VolumeSet(bool),
}

impl View for RunEvent {
    type V = RunEventView;

    open spec fn view(&self) -> RunEventView {
        match self {
            RunEvent::Auth(event) => RunEventView::Auth(event@),
            RunEvent::Emitted => RunEventView::Emitted,
            RunEvent::Devices(Some(devices)) => RunEventView::Devices(
                Some(device_views(devices@)),
            ),
            RunEvent::Devices(None) => RunEventView::Devices(None),
            RunEvent::VolumeSet(done) => RunEventView::VolumeSet(*done),
        }
    }
}

/// What the controller asks its caller to do next.
#[derive(Debug, PartialEq, Eq)]
pub enum RunAction {
    /// Ask the remote service to renew this credential.
    Refresh(Credential),
    /// Show the user the authorize URL for this request and open the
    /// listener.
    OpenListener(AuthorizationRequest),
    /// Ask the remote service to exchange this code for a credential.
    Exchange(String),
    /// Hand the credential out. With `persist` it is also written to where
    /// the next unattended run will find it.
    Emit { credential: Credential, persist: bool },
    /// Ask the remote service for the devices.
    ListDevices,
    /// Set the volume of the device to `level` percent.
    SetVolume { level: u8, device: Option<String> },
    /// End the process with this outcome.
    Exit(RunOutcome),
    /// Nothing to do but to wait for the next event.
    Wait,
}

/// An action as the contracts see it.
pub enum RunActionView {
    Refresh(CredentialView),
    OpenListener(AuthorizationRequestView),
    Exchange(Seq<char>),
    Emit { credential: CredentialView, persist: bool },
    ListDevices,
    SetVolume { level: u8, device: Option<Seq<char>> },
    Exit(RunOutcome),
    Wait,
}

impl View for RunAction {
    type V = RunActionView;

    open spec fn view(&self) -> RunActionView {
        match self {
            RunAction::Refresh(credential) => RunActionView::Refresh(credential@),
            RunAction::OpenListener(request) => RunActionView::OpenListener(request@),
            RunAction::Exchange(code) => RunActionView::Exchange(code@),
            RunAction::Emit { credential, persist } => RunActionView::Emit {
                credential: credential@,
                persist: *persist,
            },
            RunAction::ListDevices => RunActionView::ListDevices,
            RunAction::SetVolume { level, device } => RunActionView::SetVolume {
                level: *level,
                device: optional_text(*device),
            },
            RunAction::Exit(outcome) => RunActionView::Exit(*outcome),
            RunAction::Wait => RunActionView::Wait,
        }
    }
}

/// What one step of the run gives: the action for the caller and, where the
/// event was a request at the listener, the reply to send.
#[derive(Debug, PartialEq, Eq)]
pub struct RunStep {
    pub action: RunAction,
    pub reply: Option<Reply>,
}

/// How far the run has come.
#[derive(Debug)]
pub enum RunPhase {
    /// The authorization flow is at work.
    Authorizing(AuthorizationFlow),
    /// The credential is being handed out.
    Emitting,
    /// The devices are being listed.
    ListingDevices,
    /// The volume call is under way.
    SettingVolume,
    /// The run is over.
    Finished(RunOutcome),
}

/// A phase as the contracts see it.
pub enum RunPhaseView {
    Authorizing(AuthStateView),
    Emitting,
    ListingDevices,
    SettingVolume,
    Finished(RunOutcome),
}

impl View for RunPhase {
    type V = RunPhaseView;

    open spec fn view(&self) -> RunPhaseView {
        match self {
            RunPhase::Authorizing(flow) => RunPhaseView::Authorizing(flow@),
            RunPhase::Emitting => RunPhaseView::Emitting,
            RunPhase::ListingDevices => RunPhaseView::ListingDevices,
            RunPhase::SettingVolume => RunPhaseView::SettingVolume,
            RunPhase::Finished(outcome) => RunPhaseView::Finished(*outcome),
        }
    }
}

/// A run as the contracts see it: what the schedule decided, whether a user
/// is at hand, and how far the run has come.
pub struct RunView {
    pub decision: ScheduleDecision,
    pub interactive: bool,
    pub phase: RunPhaseView,
}

/// The run and the slot after a step, with what the step gave.
pub struct RunOutcomeView {
    pub run: RunView,
    pub slot: Option<CredentialView>,
    pub action: RunActionView,
    pub reply: Option<Reply>,
}

/// What the run makes of a step of the authorization flow. When the flow
/// proceeds, the credential in the slot is handed out, and persisted too
/// where no user is at hand; when the flow gives up, so does the run; any
/// other action of the flow is passed on.
pub open spec fn after_authorization(
    decision: ScheduleDecision,
    interactive: bool,
    state: AuthStateView,
    slot: Option<CredentialView>,
    action: AuthActionView,
) -> (RunView, RunActionView) {
    match action {
        AuthActionView::Proceed => (
            RunView { decision, interactive, phase: RunPhaseView::Emitting },
            RunActionView::Emit { credential: slot.unwrap(), persist: !interactive },
        ),
        AuthActionView::Abort(error) => (
            RunView {
                decision,
                interactive,
                phase: RunPhaseView::Finished(RunOutcome::Failed(error)),
            },
            RunActionView::Exit(RunOutcome::Failed(error)),
        ),
        AuthActionView::Refresh(credential) => (
            RunView { decision, interactive, phase: RunPhaseView::Authorizing(state) },
            RunActionView::Refresh(credential),
        ),
        AuthActionView::OpenListener(request) => (
            RunView { decision, interactive, phase: RunPhaseView::Authorizing(state) },
            RunActionView::OpenListener(request),
        ),
        AuthActionView::Exchange(code) => (
            RunView { decision, interactive, phase: RunPhaseView::Authorizing(state) },
            RunActionView::Exchange(code),
        ),
        AuthActionView::Wait => (
            RunView { decision, interactive, phase: RunPhaseView::Authorizing(state) },
            RunActionView::Wait,
        ),
    }
}

/// How a run starts. On a rest day it is over at once. On any other day the
/// authorization flow is entered on what the slot holds.
pub open spec fn run_entry(
    decision: ScheduleDecision,
    interactive: bool,
    slot: Option<CredentialView>,
    instant: Timestamp,
    request: AuthorizationRequestView,
    listener: ListenerView,
) -> (RunView, RunActionView) {
    if decision == ScheduleDecision::Skip {
        (
            RunView {
                decision,
                interactive,
                phase: RunPhaseView::Finished(RunOutcome::Skipped),
            },
            RunActionView::Exit(RunOutcome::Skipped),
        )
    } else {
        let entered = auth_entry(slot, instant, interactive, request, listener);
        after_authorization(decision, interactive, entered.0, slot, entered.1)
    }
}

/// The end of a run that got its credential, with what the device side
/// reported.
pub open spec fn completed(run: RunView, slot: Option<CredentialView>, error: Option<DeviceApiError>)
    -> RunOutcomeView {
    RunOutcomeView {
        run: RunView {
            decision: run.decision,
            interactive: run.interactive,
            phase: RunPhaseView::Finished(RunOutcome::Completed(error)),
        },
        slot,
        action: RunActionView::Exit(RunOutcome::Completed(error)),
        reply: None,
    }
}

/// One step of the run.
///
/// While the flow is at work, what concerns it is passed to it. Once the
/// credential has been handed out the devices are listed. The first device
/// of the list, in the order in which the list came, gets the one volume call
/// if the schedule decided on a level; a failed listing, an empty list and a
/// refused volume call end the run as completed, with the error noted. A
/// request that arrives when no listener waits is left unserved. Whatever
/// else is reported changes nothing.
pub open spec fn run_step(run: RunView, slot: Option<CredentialView>, event: RunEventView)
    -> RunOutcomeView {
    match (run.phase, event) {
        (RunPhaseView::Authorizing(state), RunEventView::Auth(event)) => {
            let outcome = auth_step(state, slot, event);
            let lifted = after_authorization(
                run.decision,
                run.interactive,
                outcome.state,
                outcome.slot,
                outcome.action,
            );
            RunOutcomeView {
                run: lifted.0,
                slot: outcome.slot,
                action: lifted.1,
                reply: outcome.reply,
            }
        },
        (RunPhaseView::Emitting, RunEventView::Emitted) => RunOutcomeView {
            run: RunView {
                decision: run.decision,
                interactive: run.interactive,
                phase: RunPhaseView::ListingDevices,
            },
            slot,
            action: RunActionView::ListDevices,
            reply: None,
        },
        (RunPhaseView::ListingDevices, RunEventView::Devices(None)) => completed(
            run,
            slot,
            Some(DeviceApiError::ListFailed),
        ),
        (RunPhaseView::ListingDevices, RunEventView::Devices(Some(devices))) => {
            if devices.len() == 0 {
                completed(run, slot, Some(DeviceApiError::NoDevice))
            } else {
                match run.decision {
                    ScheduleDecision::SetVolume(level) => RunOutcomeView {
                        run: RunView {
                            decision: run.decision,
                            interactive: run.interactive,
                            phase: RunPhaseView::SettingVolume,
                        },
                        slot,
                        action: RunActionView::SetVolume { level, device: devices[0].id },
                        reply: None,
                    },
                    _ => completed(run, slot, None),
                }
            }
        },
        (RunPhaseView::SettingVolume, RunEventView::VolumeSet(done)) => completed(
            run,
            slot,
            if done {
                None
            } else {
                Some(DeviceApiError::VolumeFailed)
            },
        ),
        (_, RunEventView::Auth(AuthEventView::Request(_))) => RunOutcomeView {
            run,
            slot,
            action: RunActionView::Wait,
            reply: Some(Reply::Closed),
        },
        _ => RunOutcomeView { run, slot, action: RunActionView::Wait, reply: None },
    }
}

/// What the start of a run does to the handle. On a rest day, nothing. On
/// any other day the slot is built afterwards: it is the slot that was there
/// before, or else one that `factory` made.
pub open spec fn handle_after_start<F: FnOnce() -> CredentialSlot>(
    decision: ScheduleDecision,
    before: SlotHandle,
    after: SlotHandle,
    factory: F,
) -> bool {
    if decision == ScheduleDecision::Skip {
        after == before
    } else {
        &&& after.is_initialized()
        &&& before.is_initialized() ==> after.content() == before.content()
        &&& !before.is_initialized() ==> exists|built: CredentialSlot|
            factory.ensures((), built) && built@ == after.content()
    }
}

/// Sequences one run.
#[derive(Debug)]
pub struct RunController {
    decision: ScheduleDecision,
    interactive: bool,
    phase: RunPhase,
}

impl View for RunController {
    type V = RunView;

    closed spec fn view(&self) -> RunView {
        RunView { decision: self.decision, interactive: self.interactive, phase: self.phase@ }
    }
}

impl RunController {
    fn lift(
        decision: ScheduleDecision,
        interactive: bool,
        flow: AuthorizationFlow,
        slot: &CredentialSlot,
        action: AuthAction,
    ) -> (lifted: (RunController, RunAction))
        requires
            action@ is Proceed ==> slot@ is Some,
        ensures
            (lifted.0@, lifted.1@) == after_authorization(
                decision,
                interactive,
                flow@,
                slot@,
                action@,
            ),
    {
        match action {
            AuthAction::Proceed => match slot.get() {
                Some(credential) => (
                    RunController { decision, interactive, phase: RunPhase::Emitting },
                    RunAction::Emit { credential, persist: !interactive },
                ),
                None => unreached(),
            },
            AuthAction::Abort(error) => (
                RunController {
                    decision,
                    interactive,
                    phase: RunPhase::Finished(RunOutcome::Failed(error)),
                },
                RunAction::Exit(RunOutcome::Failed(error)),
            ),
            AuthAction::Refresh(credential) => (
                RunController { decision, interactive, phase: RunPhase::Authorizing(flow) },
                RunAction::Refresh(credential),
            ),
            AuthAction::OpenListener(request) => (
                RunController { decision, interactive, phase: RunPhase::Authorizing(flow) },
                RunAction::OpenListener(request),
            ),
            AuthAction::Exchange(code) => (
                RunController { decision, interactive, phase: RunPhase::Authorizing(flow) },
                RunAction::Exchange(code),
            ),
            AuthAction::Wait => (
                RunController { decision, interactive, phase: RunPhase::Authorizing(flow) },
                RunAction::Wait,
            ),
        }
    }

    /// Starts a run at the local moment `now`, which is the instant
    /// `instant`. On a rest day the run is over at once and the handle is not
    /// touched. On any other day the slot is built through the handle, if it
    /// has not been built yet, and the authorization flow is entered on what
    /// it holds. The factory has to be fit to run only for a working day and
    /// an unbuilt slot: on a rest day it is not run.
    pub fn start<F: FnOnce() -> CredentialSlot>(
        policy: &SchedulePolicy,
        now: LocalDateTime,
        instant: Timestamp,
        interactive: bool,
        config: &AuthConfig,
        handle: &mut SlotHandle,
        factory: F,
    ) -> (started: (RunController, RunAction))
        requires
            policy.decision(now) != ScheduleDecision::Skip && !old(handle).is_initialized()
                ==> factory.requires(()),
        ensures
            handle_after_start(policy.decision(now), *old(handle), *final(handle), factory),
            (started.0@, started.1@) == run_entry(
                policy.decision(now),
                interactive,
                final(handle).content(),
                instant,
                config.request(),
                config.listener(),
            ),
    {
        let decision = policy.decide(now);
        if decision == ScheduleDecision::Skip {
            return (
                RunController {
                    decision,
                    interactive,
                    phase: RunPhase::Finished(RunOutcome::Skipped),
                },
                RunAction::Exit(RunOutcome::Skipped),
            );
        }
        let slot = handle.initialize_once(factory);
        let (flow, action) = AuthorizationFlow::enter(slot, instant, interactive, config);
        RunController::lift(decision, interactive, flow, slot, action)
    }

    /// Starts a run at `instant`, read on the Copenhagen wall clock. `None`,
    /// with the handle untouched, when the instant has no such reading.
    pub fn start_at<F: FnOnce() -> CredentialSlot>(
        policy: &SchedulePolicy,
        instant: Timestamp,
        interactive: bool,
        config: &AuthConfig,
        handle: &mut SlotHandle,
        factory: F,
    ) -> (started: Option<(RunController, RunAction)>)
        requires
            !old(handle).is_initialized() ==> factory.requires(()),
        ensures
            started.is_some() <==> copenhagen_clock(instant.secs as int).is_some(),
            FIRST_COMMON_SECOND <= instant.secs <= LAST_COMMON_SECOND ==> started.is_some(),
            started.is_none() ==> *final(handle) == *old(handle),
            started matches Some(run) ==> {
                let now = local_reading(instant.secs as int).unwrap();
                &&& handle_after_start(policy.decision(now), *old(handle), *final(handle), factory)
                &&& (run.0@, run.1@) == run_entry(
                    policy.decision(now),
                    interactive,
                    final(handle).content(),
                    instant,
                    config.request(),
                    config.listener(),
                )
            },
    {
        match local_date_time(instant.secs) {
            Some(now) => Some(
                RunController::start(policy, now, instant, interactive, config, handle, factory),
            ),
            None => None,
        }
    }

    /// The outcome of the run, once it is over.
    pub fn outcome(&self) -> (outcome: Option<RunOutcome>)
        ensures
            outcome == (match self@.phase {
                RunPhaseView::Finished(o) => Some(o),
                _ => None,
            }),
    {
        match &self.phase {
            RunPhase::Finished(outcome) => Some(*outcome),
            _ => None,
        }
    }

    /// What the schedule decided for this run.
    pub fn decision(&self) -> (decision: ScheduleDecision)
        ensures
            decision == self@.decision,
    {
        self.decision
    }

    fn finish(&mut self, error: Option<DeviceApiError>) -> (step: RunStep)
        ensures
            final(self)@ == (RunView {
                decision: old(self)@.decision,
                interactive: old(self)@.interactive,
                phase: RunPhaseView::Finished(RunOutcome::Completed(error)),
            }),
            step.action@ == RunActionView::Exit(RunOutcome::Completed(error)),
            step.reply.is_none(),
    {
        self.phase = RunPhase::Finished(RunOutcome::Completed(error));
        RunStep { action: RunAction::Exit(RunOutcome::Completed(error)), reply: None }
    }

    /// Takes one event and says what to do next.
    pub fn step(&mut self, slot: &mut CredentialSlot, event: RunEvent) -> (step: RunStep)
        ensures
            (RunOutcomeView {
                run: final(self)@,
                slot: final(slot)@,
                action: step.action@,
                reply: step.reply,
            }) == run_step(old(self)@, old(slot)@, event@),
    {
        match event {
            RunEvent::Auth(event) => {
                let stepped = match &mut self.phase {
                    RunPhase::Authorizing(flow) => Some(flow.step(slot, event)),
                    _ => match event {
                        AuthEvent::Request(_) => {
                            return RunStep { action: RunAction::Wait, reply: Some(Reply::Closed) };
                        },
                        _ => {
                            return RunStep { action: RunAction::Wait, reply: None };
                        },
                    },
                };
                match stepped {
                    Some(inner) => {
                        let action = match inner.action {
                            AuthAction::Proceed => match slot.get() {
                                Some(credential) => {
                                    self.phase = RunPhase::Emitting;
                                    RunAction::Emit { credential, persist: !self.interactive }
                                },
                                None => unreached(),
                            },
                            AuthAction::Abort(error) => {
                                self.phase = RunPhase::Finished(RunOutcome::Failed(error));
                                RunAction::Exit(RunOutcome::Failed(error))
                            },
                            AuthAction::Refresh(credential) => RunAction::Refresh(credential),
                            AuthAction::OpenListener(request) => RunAction::OpenListener(request),
                            AuthAction::Exchange(code) => RunAction::Exchange(code),
                            AuthAction::Wait => RunAction::Wait,
                        };
                        RunStep { action, reply: inner.reply }
                    },
                    None => unreached(),
                }
            },
            RunEvent::Emitted => match &self.phase {
                RunPhase::Emitting => {
                    self.phase = RunPhase::ListingDevices;
                    RunStep { action: RunAction::ListDevices, reply: None }
                },
                _ => RunStep { action: RunAction::Wait, reply: None },
            },
            RunEvent::Devices(listing) => match &self.phase {
                RunPhase::ListingDevices => match listing {
                    None => self.finish(Some(DeviceApiError::ListFailed)),
                    Some(devices) => {
                        if devices.len() == 0 {
                            self.finish(Some(DeviceApiError::NoDevice))
                        } else {
                            match self.decision {
                                ScheduleDecision::SetVolume(level) => {
                                    let device = copy_optional_string(&devices[0].id);
                                    self.phase = RunPhase::SettingVolume;
                                    RunStep {
                                        action: RunAction::SetVolume { level, device },
                                        reply: None,
                                    }
                                },
                                _ => self.finish(None),
                            }
                        }
                    },
                },
                _ => RunStep { action: RunAction::Wait, reply: None },
            },
            RunEvent::VolumeSet(done) => match &self.phase {
                RunPhase::SettingVolume => if done {
                    self.finish(None)
                } else {
                    self.finish(Some(DeviceApiError::VolumeFailed))
                },
                _ => RunStep { action: RunAction::Wait, reply: None },
            },
        }
    }
}

/// The run and the slot after a run of events.
pub open spec fn run_after(run: RunView, slot: Option<CredentialView>, events: Seq<RunEventView>)
    -> (RunView, Option<CredentialView>)
    decreases events.len(),
{
    if events.len() == 0 {
        (run, slot)
    } else {
        let before = run_after(run, slot, events.drop_last());
        let outcome = run_step(before.0, before.1, events.last());
        (outcome.run, outcome.slot)
    }
}

/// What the step for the event at `index` of a run of events gives.
pub open spec fn run_outcome_at(
    run: RunView,
    slot: Option<CredentialView>,
    events: Seq<RunEventView>,
    index: int,
) -> RunOutcomeView
    recommends
        0 <= index < events.len(),
{
    let before = run_after(run, slot, events.take(index));
    run_step(before.0, before.1, events[index])
}

/// Whether an action reaches out to the remote service or to the user.
pub open spec fn is_remote_call(action: RunActionView) -> bool {
    action is Refresh || action is OpenListener || action is Exchange || action is ListDevices
        || action is SetVolume
}

/// A step keeps what the schedule decided and whether a user is at hand.
/// It ends the run in failure only from within the authorization flow, and
/// it writes the slot only there.
pub proof fn lemma_run_step_shape(run: RunView, slot: Option<CredentialView>, event: RunEventView)
    ensures
        run_step(run, slot, event).run.decision == run.decision,
        run_step(run, slot, event).run.interactive == run.interactive,
        !(run.phase is Authorizing) ==> run_step(run, slot, event).slot == slot,
        !(run.phase is Authorizing) ==> !(run_step(run, slot, event).action is Refresh)
            && !(run_step(run, slot, event).action is OpenListener) && !(run_step(
            run,
            slot,
            event,
        ).action is Exchange) && !(run_step(run, slot, event).action is Emit),
        !(run_step(run, slot, event).action is OpenListener),
        !(run_step(run, slot, event).action is Refresh),
        forall|error: AuthError|
            run_step(run, slot, event).action == RunActionView::Exit(RunOutcome::Failed(error))
                ==> run.phase is Authorizing,
        forall|outcome: RunOutcome|
            run_step(run, slot, event).action == RunActionView::Exit(outcome) ==> run_step(
                run,
                slot,
                event,
            ).run.phase == RunPhaseView::Finished(outcome),
{
}

/// A run that is over stays over: whatever is reported afterwards changes
/// nothing and asks for nothing.
pub proof fn lemma_finished_run_is_final(
    run: RunView,
    slot: Option<CredentialView>,
    events: Seq<RunEventView>,
    index: int,
)
    requires
        run.phase is Finished,
        0 <= index < events.len(),
    ensures
        run_after(run, slot, events) == (run, slot),
        run_outcome_at(run, slot, events, index).action is Wait,
        run_outcome_at(run, slot, events, index).reply != Some(Reply::Acknowledged),
{
    lemma_finished_run(run, slot, events);
    lemma_finished_run(run, slot, events.take(index));
}

proof fn lemma_finished_run(run: RunView, slot: Option<CredentialView>, events: Seq<RunEventView>)
    requires
        run.phase is Finished,
    ensures
        run_after(run, slot, events) == (run, slot),
    decreases events.len(),
{
    if events.len() > 0 {
        lemma_finished_run(run, slot, events.drop_last());
    }
}

/// On a rest day the run is over as it starts, with success, and nothing it
/// is told afterwards makes it call the remote service, open a listener or
/// write the slot.
pub proof fn lemma_rest_day_run_touches_nothing(
    policy: SchedulePolicy,
    now: LocalDateTime,
    interactive: bool,
    slot: Option<CredentialView>,
    instant: Timestamp,
    request: AuthorizationRequestView,
    listener: ListenerView,
    events: Seq<RunEventView>,
    index: int,
)
    requires
        policy.is_rest_day(now.weekday),
        0 <= index < events.len(),
    ensures
        ({
            let entry = run_entry(
                policy.decision(now),
                interactive,
                slot,
                instant,
                request,
                listener,
            );
            &&& entry.0.phase == RunPhaseView::Finished(RunOutcome::Skipped)
            &&& entry.1 == RunActionView::Exit(RunOutcome::Skipped)
            &&& RunOutcome::Skipped.exit_status() == 0
            &&& !is_remote_call(entry.1)
            &&& run_after(entry.0, slot, events) == (entry.0, slot)
            &&& run_outcome_at(entry.0, slot, events, index).action is Wait
            &&& !is_remote_call(run_outcome_at(entry.0, slot, events, index).action)
        }),
{
    let entry = run_entry(policy.decision(now), interactive, slot, instant, request, listener);
    lemma_finished_run_is_final(entry.0, slot, events, index);
}

proof fn lemma_past_authorization(
    run: RunView,
    slot: Option<CredentialView>,
    events: Seq<RunEventView>,
)
    requires
        !(run.phase is Authorizing),
    ensures
        !(run_after(run, slot, events).0.phase is Authorizing),
        run_after(run, slot, events).1 == slot,
    decreases events.len(),
{
    if events.len() > 0 {
        lemma_past_authorization(run, slot, events.drop_last());
    }
}

/// With a usable credential in the slot a working day's run goes straight to
/// handing it out. It never renews, never exchanges a code, never opens a
/// listener, and leaves the slot as it found it.
pub proof fn lemma_valid_credential_is_used_as_it_is(
    decision: ScheduleDecision,
    interactive: bool,
    slot: Option<CredentialView>,
    instant: Timestamp,
    request: AuthorizationRequestView,
    listener: ListenerView,
    events: Seq<RunEventView>,
    index: int,
)
    requires
        decision != ScheduleDecision::Skip,
        standing_at(slot, instant) == Standing::Valid,
        0 <= index < events.len(),
    ensures
        ({
            let entry = run_entry(decision, interactive, slot, instant, request, listener);
            let outcome = run_outcome_at(entry.0, slot, events, index);
            &&& entry.0.phase == RunPhaseView::Emitting
            &&& entry.1 == RunActionView::Emit { credential: slot.unwrap(), persist: !interactive }
            &&& !(outcome.action is Refresh)
            &&& !(outcome.action is Exchange)
            &&& !(outcome.action is OpenListener)
            &&& !(outcome.action is Emit)
            &&& outcome.reply != Some(Reply::Acknowledged)
            &&& outcome.slot == slot
        }),
{
    let entry = run_entry(decision, interactive, slot, instant, request, listener);
    lemma_past_authorization(entry.0, slot, events.take(index));
    let before = run_after(entry.0, slot, events.take(index));
    lemma_run_step_shape(before.0, before.1, events[index]);
}

/// The volume call goes to the first device of the list as it came, with
/// the level that the schedule decided on; where the schedule decided on no
/// level, the run ends without a volume call.
pub proof fn lemma_first_device_gets_the_decided_level(
    run: RunView,
    slot: Option<CredentialView>,
    devices: Seq<DeviceView>,
)
    requires
        run.phase is ListingDevices,
        devices.len() > 0,
    ensures
        run.decision matches ScheduleDecision::SetVolume(level) ==> run_step(
            run,
            slot,
            RunEventView::Devices(Some(devices)),
        ).action == (RunActionView::SetVolume { level, device: devices[0].id }),
        !(run.decision is SetVolume) ==> run_step(
            run,
            slot,
            RunEventView::Devices(Some(devices)),
        ).action == RunActionView::Exit(RunOutcome::Completed(None)),
{
}

/// Every volume call carries the level that the schedule decided on, and
/// under a well-formed policy that level is a percentage.
pub proof fn lemma_volume_calls_follow_the_schedule(
    policy: SchedulePolicy,
    now: LocalDateTime,
    run: RunView,
    slot: Option<CredentialView>,
    event: RunEventView,
)
    requires
        policy.wf(),
        run.decision == policy.decision(now),
        run_step(run, slot, event).action is SetVolume,
    ensures
        run.decision == ScheduleDecision::SetVolume(
            run_step(run, slot, event).action->SetVolume_level,
        ),
        run_step(run, slot, event).action->SetVolume_level <= MAX_VOLUME,
        run.phase is ListingDevices,
{
}

/// Trouble on the device side does not fail the run: from the listing of
/// the devices on, every way the run can end has the exit status 0.
pub proof fn lemma_device_trouble_is_not_fatal(
    run: RunView,
    slot: Option<CredentialView>,
    events: Seq<RunEventView>,
)
    requires
        run.phase is Emitting || run.phase is ListingDevices || run.phase is SettingVolume,
    ensures
        run_after(run, slot, events).0.phase matches RunPhaseView::Finished(outcome)
            ==> outcome is Completed && outcome.exit_status() == 0,
        !(run_after(run, slot, events).0.phase is Authorizing),
    decreases events.len(),
{
    if events.len() > 0 {
        lemma_device_trouble_is_not_fatal(run, slot, events.drop_last());
    }
}

/// Whether the credential has been handed out at the start of a run or by
/// one of the first `upto` steps after it.
pub open spec fn emitted_within(
    entry: (RunView, RunActionView),
    slot: Option<CredentialView>,
    events: Seq<RunEventView>,
    upto: int,
) -> bool {
    entry.1 is Emit || exists|i: int|
        0 <= i < upto && (#[trigger] run_outcome_at(entry.0, slot, events, i)).action is Emit
}

/// Whether a run has come to the device side, or through it.
pub open spec fn past_emission(phase: RunPhaseView) -> bool {
    phase is Emitting || phase is ListingDevices || phase is SettingVolume || (phase
        matches RunPhaseView::Finished(outcome) && outcome is Completed)
}

proof fn lemma_emission_comes_first(
    entry: (RunView, RunActionView),
    slot: Option<CredentialView>,
    events: Seq<RunEventView>,
    upto: int,
)
    requires
        0 <= upto <= events.len(),
        past_emission(entry.0.phase) ==> entry.1 is Emit,
    ensures
        past_emission(run_after(entry.0, slot, events.take(upto)).0.phase) ==> emitted_within(
            entry,
            slot,
            events,
            upto,
        ),
    decreases upto,
{
    if upto == 0 {
        assert(events.take(0) =~= Seq::<RunEventView>::empty());
    } else {
        lemma_emission_comes_first(entry, slot, events, upto - 1);
        assert(events.take(upto).drop_last() =~= events.take(upto - 1));
        assert(events.take(upto).last() == events[upto - 1]);
        let before = run_after(entry.0, slot, events.take(upto - 1));
        let outcome = run_outcome_at(entry.0, slot, events, upto - 1);
        assert(run_after(entry.0, slot, events.take(upto)) == (outcome.run, outcome.slot));
        if past_emission(outcome.run.phase) {
            if past_emission(before.0.phase) {
                assert(emitted_within(entry, slot, events, upto - 1));
                if !(entry.1 is Emit) {
                    let i = choose|i: int|
                        0 <= i < upto - 1 && (#[trigger] run_outcome_at(
                            entry.0,
                            slot,
                            events,
                            i,
                        )).action is Emit;
                    assert(0 <= i < upto && run_outcome_at(entry.0, slot, events, i).action
                        is Emit);
                }
            } else {
                assert(outcome.action is Emit);
            }
        }
    }
}

/// The credential comes first. Whenever a run lists the devices, sets the
/// volume or ends as completed, it has handed the credential out before: at
/// its start or in an earlier step. No failure on the device side can keep a
/// credential from being handed out.
pub proof fn lemma_credential_is_emitted_before_devices(
    decision: ScheduleDecision,
    interactive: bool,
    slot: Option<CredentialView>,
    instant: Timestamp,
    request: AuthorizationRequestView,
    listener: ListenerView,
    events: Seq<RunEventView>,
    index: int,
)
    requires
        0 <= index < events.len(),
    ensures
        ({
            let entry = run_entry(decision, interactive, slot, instant, request, listener);
            let action = run_outcome_at(entry.0, slot, events, index).action;
            (action is ListDevices || action is SetVolume || (action matches RunActionView::Exit(
                outcome,
            ) && outcome is Completed)) ==> emitted_within(entry, slot, events, index)
        }),
{
    let entry = run_entry(decision, interactive, slot, instant, request, listener);
    lemma_emission_comes_first(entry, slot, events, index);
}

/// How far a run has come, as a number that no step lowers.
pub open spec fn progress(phase: RunPhaseView) -> nat {
    match phase {
        RunPhaseView::Authorizing(AuthStateView::Exchanging) => 1,
        RunPhaseView::Authorizing(AuthStateView::Authorized) => 2,
        RunPhaseView::Authorizing(AuthStateView::Failed(_)) => 2,
        RunPhaseView::Authorizing(_) => 0,
        RunPhaseView::Emitting => 3,
        RunPhaseView::ListingDevices => 4,
        RunPhaseView::SettingVolume => 5,
        RunPhaseView::Finished(_) => 6,
    }
}

/// Whether two actions ask for the same sort of thing. Waiting asks for
/// nothing.
pub open spec fn same_call(one: RunActionView, other: RunActionView) -> bool {
    ||| one is Refresh && other is Refresh
    ||| one is OpenListener && other is OpenListener
    ||| one is Exchange && other is Exchange
    ||| one is Emit && other is Emit
    ||| one is ListDevices && other is ListDevices
    ||| one is SetVolume && other is SetVolume
    ||| one is Exit && other is Exit
}

/// A step never takes a run back, and a step that asks for anything takes it
/// forward. What is asked for tells how far the run had come.
pub proof fn lemma_step_makes_progress(
    run: RunView,
    slot: Option<CredentialView>,
    event: RunEventView,
)
    ensures
        ({
            let next = run_step(run, slot, event);
            let before = progress(run.phase);
            let after = progress(next.run.phase);
            &&& before <= after
            &&& !(next.action is Wait) ==> before < after
            &&& next.action is Exchange ==> before == 0 && after == 1
            &&& next.action is Emit ==> before <= 1 && after == 3
            &&& next.action is ListDevices ==> before == 3 && after == 4
            &&& next.action is SetVolume ==> before == 4 && after == 5
            &&& next.action is Exit ==> before < 6 && after == 6
        }),
{
}

proof fn lemma_progress_never_falls(
    run: RunView,
    slot: Option<CredentialView>,
    events: Seq<RunEventView>,
    from: int,
    to: int,
)
    requires
        0 <= from <= to <= events.len(),
    ensures
        progress(run_after(run, slot, events.take(from)).0.phase) <= progress(
            run_after(run, slot, events.take(to)).0.phase,
        ),
    decreases to - from,
{
    if from < to {
        lemma_progress_never_falls(run, slot, events, from, to - 1);
        assert(events.take(to).drop_last() =~= events.take(to - 1));
        assert(events.take(to).last() == events[to - 1]);
        let before = run_after(run, slot, events.take(to - 1));
        lemma_step_makes_progress(before.0, before.1, events[to - 1]);
    }
}

/// Nothing is asked for twice. Of the steps of a run, whatever is reported
/// to it, at most one asks for an exchange, at most one hands the credential
/// out, at most one lists the devices, at most one sets the volume and at
/// most one ends the run.
pub proof fn lemma_no_call_is_made_twice(
    run: RunView,
    slot: Option<CredentialView>,
    events: Seq<RunEventView>,
    first: int,
    later: int,
)
    requires
        0 <= first < later < events.len(),
    ensures
        !same_call(
            run_outcome_at(run, slot, events, first).action,
            run_outcome_at(run, slot, events, later).action,
        ),
{
    let before_first = run_after(run, slot, events.take(first));
    lemma_step_makes_progress(before_first.0, before_first.1, events[first]);
    assert(events.take(first + 1).drop_last() =~= events.take(first));
    assert(events.take(first + 1).last() == events[first]);
    lemma_progress_never_falls(run, slot, events, first + 1, later);
    let before_later = run_after(run, slot, events.take(later));
    lemma_step_makes_progress(before_later.0, before_later.1, events[later]);
}

/// Nor does any step ask again for what the start of the run asked for: a
/// renewal, a listener, the handing out of the credential and the end of the
/// run each happen then or later, never both.
pub proof fn lemma_the_start_is_not_repeated(
    decision: ScheduleDecision,
    interactive: bool,
    slot: Option<CredentialView>,
    instant: Timestamp,
    request: AuthorizationRequestView,
    listener: ListenerView,
    events: Seq<RunEventView>,
    index: int,
)
    requires
        0 <= index < events.len(),
    ensures
        ({
            let entry = run_entry(decision, interactive, slot, instant, request, listener);
            &&& !(entry.1 is Wait)
            &&& !same_call(entry.1, run_outcome_at(entry.0, slot, events, index).action)
        }),
{
    let entry = run_entry(decision, interactive, slot, instant, request, listener);
    assert(events.take(0) =~= Seq::<RunEventView>::empty());
    lemma_progress_never_falls(entry.0, slot, events, 0, index);
    let before = run_after(entry.0, slot, events.take(index));
    lemma_step_makes_progress(before.0, before.1, events[index]);
    lemma_run_step_shape(before.0, before.1, events[index]);
}

} // verus!
