//! The upgrade as a state machine.
//!
//! One run goes `Start → VersionCheck → Upload → Trigger → Polling → Validate →
//! Done`, and from any of them to `Failed` on the first error. The machine
//! never acts itself: [`UpgradeSession::step`] takes what has just happened and
//! answers with what to do next. Its caller performs that, one action at a
//! time, and comes back with the outcome.

use crate::config::{ConfigStore, ConfigView};
use crate::device::{binding_of, BindingView, DeviceClient};
use crate::error::DeviceError;
use vstd::prelude::*;

verus! {

/// Seconds to wait between two progress queries.
pub const POLL_INTERVAL_SECS: u64 = 10;

/// Where a run stands. Each phase but the first and the last two is named
/// after the call that is under way in it.
#[derive(Clone, Copy, Debug, PartialEq, Eq, Structural)]
pub enum Phase {
    /// Nothing has happened yet.
    Start,
    /// The version that runs before the upgrade is being asked for.
    VersionCheck,
    /// The firmware image is being uploaded.
    Upload,
    /// The device is being told to start the upgrade.
    Trigger,
    /// The device is being asked, again and again, whether it is done.
    Polling,
    /// The version that runs after the upgrade is being asked for.
    Validate,
    /// The run is over and went well.
    Done,
    /// The run is over: a step failed.
    Failed,
}

/// What has just happened, as mathematics.
pub enum EventView {
    Started,
    VersionRead(Result<Seq<char>, DeviceError>),
    Uploaded(Result<(), DeviceError>),
    Triggered(Result<(), DeviceError>),
    StatusRead(Result<bool, DeviceError>),
    Slept,
}

/// What has just happened.
#[derive(Debug, PartialEq, Eq)]
pub enum Event {
    /// The caller wants the run to begin.
    Started,
    /// A version query ended.
    VersionRead(Result<String, DeviceError>),
    /// The upload ended.
    Uploaded(Result<(), DeviceError>),
    /// The request that starts the upgrade ended.
    Triggered(Result<(), DeviceError>),
    /// A progress query ended; `true` means the upgrade is over.
    StatusRead(Result<bool, DeviceError>),
    /// The wait between two progress queries is over.
    Slept,
}

impl View for Event {
    type V = EventView;

    open spec fn view(&self) -> EventView {
        match *self {
            Event::Started => EventView::Started,
            Event::VersionRead(Ok(version)) => EventView::VersionRead(Ok(version@)),
            Event::VersionRead(Err(e)) => EventView::VersionRead(Err(e)),
            Event::Uploaded(outcome) => EventView::Uploaded(outcome),
            Event::Triggered(outcome) => EventView::Triggered(outcome),
            Event::StatusRead(outcome) => EventView::StatusRead(outcome),
            Event::Slept => EventView::Slept,
        }
    }
}

/// What to do next, as mathematics.
pub enum ActionView {
    GetVersion,
    Upload { path: Seq<char> },
    Trigger,
    CheckStatus,
    Sleep { secs: u64 },
    Report { previous: Seq<char>, current: Seq<char> },
    Abort { error: DeviceError },
    Nothing,
}

/// What to do next. After each action but the last three the caller comes
/// back with the event that tells how it went.
#[derive(Debug, PartialEq, Eq)]
pub enum Action {
    /// Ask the device for the version it runs; then `VersionRead`.
    GetVersion,
    /// Read the image at `path` whole and upload it; then `Uploaded`.
    Upload { path: String },
    /// Tell the device to start the upgrade; then `Triggered`.
    Trigger,
    /// Ask the device whether the upgrade is over; then `StatusRead`.
    CheckStatus,
    /// Wait `secs` seconds, holding no lock; then `Slept`.
    Sleep { secs: u64 },
    /// The run went well: report the version before and the version after.
    Report { previous: String, current: String },
    /// The run failed: report `error` and stop.
    Abort { error: DeviceError },
    /// The event was not the one awaited, or the run is over: nothing changed,
    /// and there is nothing to do.
    Nothing,
}

impl View for Action {
    type V = ActionView;

    open spec fn view(&self) -> ActionView {
        match *self {
            Action::GetVersion => ActionView::GetVersion,
            Action::Upload { path } => ActionView::Upload { path: path@ },
            Action::Trigger => ActionView::Trigger,
            Action::CheckStatus => ActionView::CheckStatus,
            Action::Sleep { secs } => ActionView::Sleep { secs },
            Action::Report { previous, current } => ActionView::Report {
                previous: previous@,
                current: current@,
            },
            Action::Abort { error } => ActionView::Abort { error },
            Action::Nothing => ActionView::Nothing,
        }
    }
}

/// One run, as mathematics.
pub struct SessionView {
    /// Where the run stands.
    pub phase: Phase,
    /// The base URL and token that the run's client took at the start.
    pub binding: Option<BindingView>,
    /// The version that ran before the upgrade, once known.
    pub current_version: Option<Seq<char>>,
    /// Whether the image has reached the device.
    pub upload_complete: bool,
    /// Whether the device has been told to start.
    pub upgrade_triggered: bool,
    /// Whether the wait between two progress queries is under way.
    pub sleeping: bool,
    /// The version that ran after the upgrade, once known.
    pub final_version: Option<Seq<char>>,
    /// The error that ended the run, if one did.
    pub failure: Option<DeviceError>,
}

/// The version in `known`, or the empty text.
pub open spec fn version_or_empty(known: Option<Seq<char>>) -> Seq<char> {
    match known {
        Some(version) => version,
        None => Seq::empty(),
    }
}

impl SessionView {
    /// The run before anything has happened.
    pub open spec fn initial() -> SessionView {
        SessionView {
            phase: Phase::Start,
            binding: None,
            current_version: None,
            upload_complete: false,
            upgrade_triggered: false,
            sleeping: false,
            final_version: None,
            failure: None,
        }
    }

    /// Whether the run is in the polling loop.
    pub open spec fn polling(self) -> bool {
        self.phase is Polling
    }

    /// Whether the run is over.
    pub open spec fn finished(self) -> bool {
        self.phase is Done || self.phase is Failed
    }

    /// What holds of every run: the record agrees with the phase.
    pub open spec fn wf(self) -> bool {
        &&& self.binding is Some <==> !(self.phase is Start)
        &&& self.final_version is Some <==> self.phase is Done
        &&& self.failure is Some <==> self.phase is Failed
        &&& self.sleeping ==> self.phase is Polling
        &&& self.upgrade_triggered ==> self.upload_complete
        &&& self.upload_complete ==> self.current_version is Some
        &&& match self.phase {
            Phase::Start | Phase::VersionCheck => self.current_version is None,
            Phase::Upload => self.current_version is Some && !self.upload_complete,
            Phase::Trigger => self.upload_complete && !self.upgrade_triggered,
            Phase::Polling | Phase::Validate | Phase::Done => self.upgrade_triggered,
            Phase::Failed => true,
        }
    }

    /// The run after the step that was under way failed with `error`.
    pub open spec fn failed_with(self, error: DeviceError) -> SessionView {
        SessionView { phase: Phase::Failed, sleeping: false, failure: Some(error), ..self }
    }

    /// The event that the run waits for, by its kind: whether `event` tells
    /// how the call under way went.
    pub open spec fn awaits(self, event: EventView) -> bool {
        match self.phase {
            Phase::Start => event is Started,
            Phase::VersionCheck | Phase::Validate => event is VersionRead,
            Phase::Upload => event is Uploaded,
            Phase::Trigger => event is Triggered,
            Phase::Polling => if self.sleeping {
                event is Slept
            } else {
                event is StatusRead
            },
            Phase::Done | Phase::Failed => false,
        }
    }
}

/// The error that `event` reports, if it reports one.
pub open spec fn error_in(event: EventView) -> Option<DeviceError> {
    match event {
        EventView::VersionRead(Err(e)) => Some(e),
        EventView::Uploaded(Err(e)) => Some(e),
        EventView::Triggered(Err(e)) => Some(e),
        EventView::StatusRead(Err(e)) => Some(e),
        _ => None,
    }
}

/// The step that leaves the run as it is.
pub open spec fn stay(s: SessionView) -> (SessionView, ActionView) {
    (s, ActionView::Nothing)
}

/// The step that ends the run with `error`.
pub open spec fn fail(s: SessionView, error: DeviceError) -> (SessionView, ActionView) {
    (s.failed_with(error), ActionView::Abort { error })
}

/// The machine: the run and the action that follow when `event` happens to the
/// run `s` while the store holds `config`.
pub open spec fn next(s: SessionView, config: ConfigView, event: EventView) -> (
    SessionView,
    ActionView,
) {
    match s.phase {
        Phase::Start => match event {
            EventView::Started => (
                SessionView { phase: Phase::VersionCheck, binding: Some(binding_of(config)), ..s },
                ActionView::GetVersion,
            ),
            _ => stay(s),
        },
        Phase::VersionCheck => match event {
            EventView::VersionRead(Ok(version)) => (
                SessionView { phase: Phase::Upload, current_version: Some(version), ..s },
                ActionView::Upload { path: config.os_file_path },
            ),
            EventView::VersionRead(Err(error)) => fail(s, error),
            _ => stay(s),
        },
        Phase::Upload => match event {
            EventView::Uploaded(Ok(_)) => (
                SessionView { phase: Phase::Trigger, upload_complete: true, ..s },
                ActionView::Trigger,
            ),
            EventView::Uploaded(Err(error)) => fail(s, error),
            _ => stay(s),
        },
        Phase::Trigger => match event {
            EventView::Triggered(Ok(_)) => (
                SessionView { phase: Phase::Polling, upgrade_triggered: true, ..s },
                ActionView::CheckStatus,
            ),
            EventView::Triggered(Err(error)) => fail(s, error),
            _ => stay(s),
        },
        Phase::Polling => if s.sleeping {
            match event {
                EventView::Slept => (SessionView { sleeping: false, ..s }, ActionView::CheckStatus),
                _ => stay(s),
            }
        } else {
            match event {
                EventView::StatusRead(Ok(true)) => (
                    SessionView { phase: Phase::Validate, ..s },
                    ActionView::GetVersion,
                ),
                EventView::StatusRead(Ok(false)) => (
                    SessionView { sleeping: true, ..s },
                    ActionView::Sleep { secs: POLL_INTERVAL_SECS },
                ),
                EventView::StatusRead(Err(error)) => fail(s, error),
                _ => stay(s),
            }
        },
        Phase::Validate => match event {
            EventView::VersionRead(Ok(version)) => (
                SessionView { phase: Phase::Done, final_version: Some(version), ..s },
                ActionView::Report {
                    previous: version_or_empty(s.current_version),
                    current: version,
                },
            ),
            EventView::VersionRead(Err(error)) => fail(s, error),
            _ => stay(s),
        },
        Phase::Done | Phase::Failed => stay(s),
    }
}

/// One run of the upgrade: where it stands and what it has learnt. It lives as
/// long as the run and is kept nowhere.
#[derive(Debug)]
pub struct UpgradeSession {
    phase: Phase,
    client: Option<DeviceClient>,
    current_version: Option<String>,
    upload_complete: bool,
    upgrade_triggered: bool,
    sleeping: bool,
    final_version: Option<String>,
    failure: Option<DeviceError>,
}

impl View for UpgradeSession {
    type V = SessionView;

    closed spec fn view(&self) -> SessionView {
        SessionView {
            phase: self.phase,
            binding: match self.client {
                Some(client) => Some(client@),
                None => None,
            },
            current_version: crate::json::text_view(self.current_version),
            upload_complete: self.upload_complete,
            upgrade_triggered: self.upgrade_triggered,
            sleeping: self.sleeping,
            final_version: crate::json::text_view(self.final_version),
            failure: self.failure,
        }
    }
}

impl UpgradeSession {
    #[verifier::type_invariant]
    spec fn well_formed(self) -> bool {
        self@.wf()
    }

    /// A run that has not begun.
    pub fn new() -> (session: UpgradeSession)
        ensures
            session@ == SessionView::initial(),
    {
        UpgradeSession {
            phase: Phase::Start,
            client: None,
            current_version: None,
            upload_complete: false,
            upgrade_triggered: false,
            sleeping: false,
            final_version: None,
            failure: None,
        }
    }

    /// Where the run stands.
    pub fn phase(&self) -> (phase: Phase)
        ensures
            phase == self@.phase,
            self@.wf(),
    {
        proof {
            use_type_invariant(self);
        }
        self.phase
    }

    /// The client that the run bound when it began; none before that.
    pub fn client(&self) -> (client: Option<&DeviceClient>)
        ensures
            client is Some <==> !(self@.phase is Start),
            match client {
                Some(bound) => self@.binding == Some(bound@),
                None => self@.binding is None,
            },
    {
        proof {
            use_type_invariant(self);
        }
        self.client.as_ref()
    }

    /// The version that ran before the upgrade, once the first version query
    /// has answered.
    pub fn current_version(&self) -> (version: Option<&str>)
        ensures
            match version {
                Some(text) => self@.current_version == Some(text@),
                None => self@.current_version is None,
            },
    {
        match &self.current_version {
            Some(text) => Some(text.as_str()),
            None => None,
        }
    }

    /// The version that ran after the upgrade: there if and only if the run is
    /// `Done`.
    pub fn final_version(&self) -> (version: Option<&str>)
        ensures
            version is Some <==> self@.phase is Done,
            match version {
                Some(text) => self@.final_version == Some(text@),
                None => self@.final_version is None,
            },
    {
        proof {
            use_type_invariant(self);
        }
        match &self.final_version {
            Some(text) => Some(text.as_str()),
            None => None,
        }
    }

    /// The error that ended the run: there if and only if the run is `Failed`.
    pub fn failure(&self) -> (error: Option<DeviceError>)
        ensures
            error == self@.failure,
            error is Some <==> self@.phase is Failed,
    {
        proof {
            use_type_invariant(self);
        }
        self.failure
    }

    /// Whether the image has reached the device.
    pub fn upload_complete(&self) -> (complete: bool)
        ensures
            complete == self@.upload_complete,
    {
        self.upload_complete
    }

    /// Whether the device has been told to start the upgrade.
    pub fn upgrade_triggered(&self) -> (triggered: bool)
        ensures
            triggered == self@.upgrade_triggered,
    {
        self.upgrade_triggered
    }

    /// Whether the run is in the polling loop.
    pub fn polling(&self) -> (polling: bool)
        ensures
            polling == self@.polling(),
    {
        match self.phase {
            Phase::Polling => true,
            _ => false,
        }
    }

    /// Whether the run is over, well or badly.
    pub fn finished(&self) -> (over: bool)
        ensures
            over == self@.finished(),
    {
        match self.phase {
            Phase::Done | Phase::Failed => true,
            _ => false,
        }
    }

    /// Ends the run with `error`.
    fn fail(self, error: DeviceError) -> (out: (UpgradeSession, Action))
        requires
            !self@.finished(),
            !(self@.phase is Start),
        ensures
            out.0@ == fail(self@, error).0,
            out.1@ == fail(self@, error).1,
    {
        proof {
            use_type_invariant(&self);
        }
        (
            UpgradeSession { phase: Phase::Failed, sleeping: false, failure: Some(error), ..self },
            Action::Abort { error },
        )
    }

    /// Takes the run one step on: `event` has happened, and the answer is the
    /// run after it and what the caller is to do next.
    ///
    /// The store is read at two points only, and each time afresh: at the
    /// start, for the base URL and the token that the run's client keeps from
    /// then on, and when the upload is due, for the path of the image.
    pub fn step(self, store: &ConfigStore, event: Event) -> (out: (UpgradeSession, Action))
        ensures
            out.0@ == next(self@, store@, event@).0,
            out.1@ == next(self@, store@, event@).1,
    {
        proof {
            use_type_invariant(&self);
        }
        match self.phase {
            Phase::Start => match event {
                Event::Started => {
                    let client = DeviceClient::bind(&store.read());
                    (
                        UpgradeSession { phase: Phase::VersionCheck, client: Some(client), ..self },
                        Action::GetVersion,
                    )
                },
                _ => (self, Action::Nothing),
            },
            Phase::VersionCheck => match event {
                Event::VersionRead(Ok(version)) => {
                    let path = store.read().os_file_path().to_owned();
                    (
                        UpgradeSession { phase: Phase::Upload, current_version: Some(version), ..self },
                        Action::Upload { path },
                    )
                },
                Event::VersionRead(Err(error)) => self.fail(error),
                _ => (self, Action::Nothing),
            },
            Phase::Upload => match event {
                Event::Uploaded(Ok(_)) => (
                    UpgradeSession { phase: Phase::Trigger, upload_complete: true, ..self },
                    Action::Trigger,
                ),
                Event::Uploaded(Err(error)) => self.fail(error),
                _ => (self, Action::Nothing),
            },
            Phase::Trigger => match event {
                Event::Triggered(Ok(_)) => (
                    UpgradeSession { phase: Phase::Polling, upgrade_triggered: true, ..self },
                    Action::CheckStatus,
                ),
                Event::Triggered(Err(error)) => self.fail(error),
                _ => (self, Action::Nothing),
            },
            Phase::Polling => if self.sleeping {
                match event {
                    Event::Slept => (UpgradeSession { sleeping: false, ..self }, Action::CheckStatus),
                    _ => (self, Action::Nothing),
                }
            } else {
                match event {
                    Event::StatusRead(Ok(true)) => (
                        UpgradeSession { phase: Phase::Validate, ..self },
                        Action::GetVersion,
                    ),
                    Event::StatusRead(Ok(false)) => (
                        UpgradeSession { sleeping: true, ..self },
                        Action::Sleep { secs: POLL_INTERVAL_SECS },
                    ),
                    Event::StatusRead(Err(error)) => self.fail(error),
                    _ => (self, Action::Nothing),
                }
            },
            Phase::Validate => match event {
                Event::VersionRead(Ok(version)) => {
                    let previous = match &self.current_version {
                        Some(known) => known.clone(),
                        None => String::new(),
                    };
                    let current = version.clone();
                    (
                        UpgradeSession { phase: Phase::Done, final_version: Some(version), ..self },
                        Action::Report { previous, current },
                    )
                },
                Event::VersionRead(Err(error)) => self.fail(error),
                _ => (self, Action::Nothing),
            },
            Phase::Done | Phase::Failed => (self, Action::Nothing),
        }
    }
}

/// How far a phase is along the run; `Failed` counts as the end.
pub open spec fn rank(phase: Phase) -> nat {
    match phase {
        Phase::Start => 0,
        Phase::VersionCheck => 1,
        Phase::Upload => 2,
        Phase::Trigger => 3,
        Phase::Polling => 4,
        Phase::Validate => 5,
        Phase::Done => 6,
        Phase::Failed => 7,
    }
}

/// Whether the step that `event` causes in phase `phase` reads the store.
pub open spec fn reads_store(phase: Phase, event: EventView) -> bool {
    ||| phase is Start && event is Started
    ||| phase is VersionCheck && event matches EventView::VersionRead(Ok(_))
}

/// A run that has not begun is well formed.
pub proof fn lemma_initial_wf()
    ensures
        SessionView::initial().wf(),
{
}

/// No step leads out of the well-formed runs.
pub proof fn lemma_step_keeps_wf(s: SessionView, config: ConfigView, event: EventView)
    requires
        s.wf(),
    ensures
        next(s, config, event).0.wf(),
{
}

/// `Done` and `Failed` are final: whatever happens then, the run stays as it
/// is and nothing is asked of the caller.
pub proof fn lemma_finished_is_final(s: SessionView, config: ConfigView, event: EventView)
    requires
        s.finished(),
    ensures
        next(s, config, event) == stay(s),
{
}

/// An event other than the one awaited changes nothing.
pub proof fn lemma_unawaited_event_is_ignored(s: SessionView, config: ConfigView, event: EventView)
    requires
        !s.awaits(event),
    ensures
        next(s, config, event) == stay(s),
{
}

/// The first error ends the run: where the call under way reports an error,
/// the run is `Failed` with that error, the caller is told to abort with it,
/// and what the run had learnt so far stays on record. Nothing is retried and
/// nothing is undone.
pub proof fn lemma_awaited_error_fails(
    s: SessionView,
    config: ConfigView,
    event: EventView,
    error: DeviceError,
)
    requires
        s.awaits(event),
        error_in(event) == Some(error),
    ensures
        next(s, config, event) == fail(s, error),
        next(s, config, event).0.phase is Failed,
        next(s, config, event).0.failure == Some(error),
        next(s, config, event).0.current_version == s.current_version,
        next(s, config, event).0.upload_complete == s.upload_complete,
        next(s, config, event).0.upgrade_triggered == s.upgrade_triggered,
{
}

/// An awaited event that reports no error takes the run exactly one phase
/// on, but for the polling loop, which it leaves only when the device reports
/// completion.
pub proof fn lemma_awaited_success_advances(s: SessionView, config: ConfigView, event: EventView)
    requires
        s.awaits(event),
        error_in(event) is None,
    ensures
        s.phase is Polling && event != EventView::StatusRead(Ok(true)) ==> next(s, config, event).0.phase
            is Polling,
        !(s.phase is Polling) || event == EventView::StatusRead(Ok(true)) ==> rank(
            next(s, config, event).0.phase,
        ) == rank(s.phase) + 1,
{
}

/// A run never goes back: no step lowers the rank of the phase.
pub proof fn lemma_phase_never_goes_back(s: SessionView, config: ConfigView, event: EventView)
    ensures
        rank(s.phase) <= rank(next(s, config, event).0.phase),
{
}

/// The device is told to start the upgrade only in answer to an upload that
/// succeeded.
pub proof fn lemma_trigger_follows_upload(s: SessionView, config: ConfigView, event: EventView)
    requires
        next(s, config, event).1 is Trigger,
    ensures
        s.phase is Upload,
        event matches EventView::Uploaded(Ok(_)),
        next(s, config, event).0.upload_complete,
{
}

/// The store matters to two steps only: the one that begins the run and the
/// one that follows the first version query. Every other step is the same
/// whatever the store holds.
pub proof fn lemma_store_read_at_two_steps(
    s: SessionView,
    a: ConfigView,
    b: ConfigView,
    event: EventView,
)
    requires
        !reads_store(s.phase, event),
    ensures
        next(s, a, event) == next(s, b, event),
{
}

/// The client's binding is taken from the store when the run begins, and no
/// later step changes it, whatever the store holds by then.
pub proof fn lemma_binding_is_fixed_at_start(s: SessionView, config: ConfigView, event: EventView)
    ensures
        s.phase is Start && event is Started ==> next(s, config, event).0.binding == Some(
            binding_of(config),
        ),
        !(s.phase is Start) ==> next(s, config, event).0.binding == s.binding,
{
}

/// The path of the image is the one that the store holds when the upload is
/// due, not the one it held when the run began.
pub proof fn lemma_upload_path_is_fresh(s: SessionView, config: ConfigView, version: Seq<char>)
    requires
        s.phase is VersionCheck,
    ensures
        next(s, config, EventView::VersionRead(Ok(version))).1 == (ActionView::Upload {
            path: config.os_file_path,
        }),
        next(s, config, EventView::VersionRead(Ok(version))).0.binding == s.binding,
{
}

/// Between two progress queries the caller waits the fixed interval: a report
/// other than completion is answered with a sleep, and the end of the sleep
/// with the next query.
pub proof fn lemma_polling_alternates(s: SessionView, config: ConfigView)
    requires
        s.phase is Polling,
        !s.sleeping,
    ensures
        next(s, config, EventView::StatusRead(Ok(false))).1 == (ActionView::Sleep { secs: 10 }),
        next(next(s, config, EventView::StatusRead(Ok(false))).0, config, EventView::Slept) == (
            s,
            ActionView::CheckStatus,
        ),
        next(s, config, EventView::StatusRead(Ok(true))).1 == ActionView::GetVersion,
        next(s, config, EventView::StatusRead(Ok(true))).0.phase is Validate,
{
}

/// The version after the upgrade is recorded as it comes: it is not compared
/// with the version before, and the run is `Done` whether the two differ or
/// not.
pub proof fn lemma_validation_accepts_any_version(s: SessionView, config: ConfigView, version: Seq<char>)
    requires
        s.phase is Validate,
    ensures
        next(s, config, EventView::VersionRead(Ok(version))).0.phase is Done,
        next(s, config, EventView::VersionRead(Ok(version))).0.final_version == Some(version),
        next(s, config, EventView::VersionRead(Ok(version))).1 == (ActionView::Report {
            previous: version_or_empty(s.current_version),
            current: version,
        }),
{
}

} // verus!
