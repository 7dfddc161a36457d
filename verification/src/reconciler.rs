//! The reconciliation loop as a state machine.
//!
//! The reconciler owns the cached record and decides, for every outcome the
//! driver reports, what to do next. The driver performs that one action and
//! reports its outcome; it decides nothing.

use crate::cloudflare_api::{
    CloudflareDnsRecord, CloudflareDnsResult, CloudflareResponse, DnsRecordModel, DnsResultModel,
    ResponseModel,
};
use crate::config::{Settings, SettingsModel};
use crate::text::{same_address, same_text};
use vstd::prelude::*;

verus! {

/// How a remote call failed before an answer could be read.
#[derive(Clone, Copy, Debug, PartialEq, Eq, Structural)]
pub enum Failure {
    /// The endpoint was not reached.
    Transport,
    /// The answer did not have the expected shape.
    Deserialization,
}

/// How loudly a notice is to be logged.
#[derive(Clone, Copy, Debug, PartialEq, Eq, Structural)]
pub enum Severity {
    Debug,
    Info,
    Warning,
    Error,
}

/// What the reconciler is waiting for.
#[derive(Clone, Copy, Debug, PartialEq, Eq, Structural)]
pub enum Phase {
    /// The wait between two iterations.
    Sleeping,
    /// The provider's answer to the fetch of the record.
    FetchingRecord,
    /// The answer of the address-echo endpoint.
    FetchingPublicIp,
    /// The provider's answer to an update.
    Updating,
}

/// What happened in a step, for the log.
#[derive(Clone, Copy, Debug, PartialEq, Eq, Structural)]
pub enum Notice {
    /// An iteration starts with the fetch of the record.
    RecordWanted,
    /// The record is cached; the public address is asked for.
    PublicIpWanted,
    /// The record could not be fetched.
    RecordUnavailable(Failure),
    /// The public address could not be fetched.
    PublicIpUnavailable(Failure),
    /// The public address arrived while no record was cached.
    RecordMissing,
    /// The public address is the one the record holds.
    Unchanged,
    /// The public address differs from the record; an update goes out.
    Changed,
    /// The provider acknowledged the update.
    UpdateApplied,
    /// The provider answered the update with `success == false`.
    UpdateRejected,
    /// The update got no readable answer.
    UpdateFailed(Failure),
}

/// What the driver reports.
#[derive(Debug, PartialEq)]
pub enum Event {
    /// The wait is over.
    Woke,
    /// The fetch of the record ended.
    Record(Result<CloudflareResponse<CloudflareDnsResult>, Failure>),
    /// The fetch of the public address ended; `Ok` holds the raw body.
    PublicIp(Result<String, Failure>),
    /// The update ended.
    Updated(Result<CloudflareResponse<CloudflareDnsResult>, Failure>),
}

/// What the driver is to do next.
#[derive(Debug, Clone, PartialEq)]
pub enum Action {
    /// Wait for this many seconds, then report `Event::Woke`.
    Sleep { seconds: u64 },
    /// Fetch the record from the provider, then report `Event::Record`.
    FetchRecord,
    /// Fetch the public address, then report `Event::PublicIp`.
    FetchPublicIp,
    /// Send this payload as an update, then report `Event::Updated`.
    PushUpdate { record: CloudflareDnsRecord },
}

/// The result of one step.
#[derive(Debug, Clone, PartialEq)]
pub struct Step {
    pub action: Action,
    pub notice: Notice,
}

/// Model of an answer of the provider, or of the failure to get one.
pub type AnswerModel = Result<ResponseModel<DnsResultModel>, Failure>;

/// Model of `Event`.
pub ghost enum EventModel {
    Woke,
    Record(AnswerModel),
    PublicIp(Result<Seq<char>, Failure>),
    Updated(AnswerModel),
}

/// Model of `Action`.
pub ghost enum ActionModel {
    Sleep { seconds: u64 },
    FetchRecord,
    FetchPublicIp,
    PushUpdate { record: DnsRecordModel },
}

/// Model of `Step`.
pub ghost struct StepModel {
    pub action: ActionModel,
    pub notice: Notice,
}

/// Model of an answer as the driver hands it over.
pub open spec fn answer_model(
    answer: Result<CloudflareResponse<CloudflareDnsResult>, Failure>,
) -> AnswerModel {
    match answer {
        Ok(response) => Ok(response.deep_view()),
        Err(failure) => Err(failure),
    }
}

impl DeepView for Event {
    type V = EventModel;

    open spec fn deep_view(&self) -> EventModel {
        match *self {
            Event::Woke => EventModel::Woke,
            Event::Record(answer) => EventModel::Record(answer_model(answer)),
            Event::PublicIp(Ok(body)) => EventModel::PublicIp(Ok(body@)),
            Event::PublicIp(Err(failure)) => EventModel::PublicIp(Err(failure)),
            Event::Updated(answer) => EventModel::Updated(answer_model(answer)),
        }
    }
}

impl DeepView for Action {
    type V = ActionModel;

    open spec fn deep_view(&self) -> ActionModel {
        match *self {
            Action::Sleep { seconds } => ActionModel::Sleep { seconds },
            Action::FetchRecord => ActionModel::FetchRecord,
            Action::FetchPublicIp => ActionModel::FetchPublicIp,
            Action::PushUpdate { record } => ActionModel::PushUpdate {
                record: record.deep_view(),
            },
        }
    }
}

impl DeepView for Step {
    type V = StepModel;

    open spec fn deep_view(&self) -> StepModel {
        StepModel { action: self.action.deep_view(), notice: self.notice }
    }
}

/// The severity a failure is logged with: a transport failure is a warning,
/// an unreadable answer an error.
pub open spec fn failure_severity(failure: Failure) -> Severity {
    match failure {
        Failure::Transport => Severity::Warning,
        Failure::Deserialization => Severity::Error,
    }
}

/// The severity a notice is logged with.
pub open spec fn notice_severity(notice: Notice) -> Severity {
    match notice {
        Notice::RecordWanted
        | Notice::PublicIpWanted
        | Notice::RecordMissing
        | Notice::Unchanged => Severity::Debug,
        Notice::Changed | Notice::UpdateApplied => Severity::Info,
        Notice::UpdateRejected => Severity::Error,
        Notice::RecordUnavailable(failure)
        | Notice::PublicIpUnavailable(failure)
        | Notice::UpdateFailed(failure) => failure_severity(failure),
    }
}

impl Failure {
    /// The severity this failure is logged with.
    pub fn severity(&self) -> (level: Severity)
        ensures
            level == failure_severity(*self),
    {
        match self {
            Failure::Transport => Severity::Warning,
            Failure::Deserialization => Severity::Error,
        }
    }
}

impl Notice {
    /// The severity this notice is logged with.
    pub fn severity(&self) -> (level: Severity)
        ensures
            level == notice_severity(*self),
    {
        match self {
            Notice::RecordWanted => Severity::Debug,
            Notice::PublicIpWanted => Severity::Debug,
            Notice::RecordMissing => Severity::Debug,
            Notice::Unchanged => Severity::Debug,
            Notice::Changed => Severity::Info,
            Notice::UpdateApplied => Severity::Info,
            Notice::UpdateRejected => Severity::Error,
            Notice::RecordUnavailable(failure) => failure.severity(),
            Notice::PublicIpUnavailable(failure) => failure.severity(),
            Notice::UpdateFailed(failure) => failure.severity(),
        }
    }
}

/// The payload that moves a record to a new address: type, name, time to
/// live and proxy flag of the record, and the address as it was fetched.
pub open spec fn payload_for(record: DnsResultModel, address: Seq<char>) -> DnsRecordModel {
    DnsRecordModel {
        dns_type: record.dns_type,
        name: record.name,
        content: address,
        ttl: record.ttl,
        proxied: record.proxied,
    }
}

/// What the cache holds after an update was answered: the answer's record
/// where the provider acknowledged the update, nothing otherwise.
pub open spec fn cache_after_update(answer: AnswerModel) -> Option<DnsResultModel> {
    match answer {
        Ok(response) => if response.success {
            Some(response.result)
        } else {
            None
        },
        Err(_) => None,
    }
}

/// The notice that goes with the answer to an update.
pub open spec fn update_notice(answer: AnswerModel) -> Notice {
    match answer {
        Ok(response) => if response.success {
            Notice::UpdateApplied
        } else {
            Notice::UpdateRejected
        },
        Err(failure) => Notice::UpdateFailed(failure),
    }
}

/// Builds the payload of an update from the cached record and the address
/// that was fetched.
pub fn updated_record(record: &CloudflareDnsResult, address: String) -> (payload:
    CloudflareDnsRecord)
    ensures
        payload.deep_view() == payload_for(record.deep_view(), address@),
{
    CloudflareDnsRecord {
        dns_type: record.dns_type.clone(),
        name: record.name.clone(),
        content: address,
        ttl: record.ttl,
        proxied: record.proxied,
    }
}

/// Reads the answer to an update: the record to cache, if the provider
/// acknowledged the update, and the notice to log.
pub fn accept_update(answer: Result<CloudflareResponse<CloudflareDnsResult>, Failure>) -> (out: (
    Option<CloudflareDnsResult>,
    Notice,
))
    ensures
        out.0.deep_view() == cache_after_update(answer_model(answer)),
        out.1 == update_notice(answer_model(answer)),
{
    match answer {
        Ok(response) => {
            if response.success {
                (Some(response.result), Notice::UpdateApplied)
            } else {
                (None, Notice::UpdateRejected)
            }
        },
        Err(failure) => (None, Notice::UpdateFailed(failure)),
    }
}

/// The local mirror of the record: empty, or the record this process last
/// saw the provider hold.
#[derive(Debug, Clone, PartialEq)]
pub struct RecordCache {
    slot: Option<CloudflareDnsResult>,
}

impl DeepView for RecordCache {
    type V = Option<DnsResultModel>;

    closed spec fn deep_view(&self) -> Option<DnsResultModel> {
        self.slot.deep_view()
    }
}

impl RecordCache {
    /// An empty cache.
    pub fn new() -> (cache: RecordCache)
        ensures
            cache.deep_view() is None,
    {
        RecordCache { slot: None }
    }

    /// The cached record, if there is one.
    pub fn read(&self) -> (record: Option<&CloudflareDnsResult>)
        ensures
            record.deep_view() == self.deep_view(),
    {
        self.slot.as_ref()
    }

    /// Puts `record` in the cache, whatever it held.
    pub fn replace(&mut self, record: CloudflareDnsResult)
        ensures
            final(self).deep_view() == Some(record.deep_view()),
    {
        self.slot = Some(record);
    }

    /// Empties the cache.
    pub fn discard(&mut self)
        ensures
            final(self).deep_view() is None,
    {
        self.slot = None;
    }
}

/// The state of the loop: the settings it was started with, the cache and
/// what it is waiting for.
#[derive(Debug, Clone, PartialEq)]
pub struct Reconciler {
    settings: Settings,
    cache: RecordCache,
    phase: Phase,
}

/// Model of `Reconciler`.
pub ghost struct ReconcilerModel {
    pub settings: SettingsModel,
    pub cached: Option<DnsResultModel>,
    pub phase: Phase,
}

impl DeepView for Reconciler {
    type V = ReconcilerModel;

    closed spec fn deep_view(&self) -> ReconcilerModel {
        ReconcilerModel {
            settings: self.settings.deep_view(),
            cached: self.cache.deep_view(),
            phase: self.phase,
        }
    }
}

/// The state a reconciler starts in: nothing cached, the first wait ahead.
pub open spec fn initial(settings: SettingsModel) -> ReconcilerModel {
    ReconcilerModel { settings, cached: None, phase: Phase::Sleeping }
}

/// The event reports the outcome that the phase waits for.
pub open spec fn answers(phase: Phase, event: EventModel) -> bool {
    match (phase, event) {
        (Phase::Sleeping, EventModel::Woke) => true,
        (Phase::FetchingRecord, EventModel::Record(_)) => true,
        (Phase::FetchingPublicIp, EventModel::PublicIp(_)) => true,
        (Phase::Updating, EventModel::Updated(_)) => true,
        _ => false,
    }
}

/// The iteration ends: the cache is left as `cached`, and the next wait
/// begins.
pub open spec fn rest(state: ReconcilerModel, cached: Option<DnsResultModel>, notice: Notice) -> (
    ReconcilerModel,
    StepModel,
) {
    (
        ReconcilerModel { settings: state.settings, cached, phase: Phase::Sleeping },
        StepModel {
            action: ActionModel::Sleep { seconds: state.settings.wait_duration },
            notice,
        },
    )
}

/// The state goes on to `phase` with `cached` in the cache.
pub open spec fn proceed(
    state: ReconcilerModel,
    cached: Option<DnsResultModel>,
    phase: Phase,
    action: ActionModel,
    notice: Notice,
) -> (ReconcilerModel, StepModel) {
    (ReconcilerModel { settings: state.settings, cached, phase }, StepModel { action, notice })
}

/// What an event that answers the phase leads to.
///
/// After the wait the record is fetched if none is cached, the public
/// address otherwise. A record that arrives is cached and the public address
/// is asked for; a record that does not arrive ends the iteration. A public
/// address that does not arrive, or arrives while nothing is cached, ends the
/// iteration with the cache as it is; so does one that is the text of the
/// cached record's content. Any other address goes out as an update. The
/// answer to an update ends the iteration, with the acknowledged record in
/// the cache or with an empty cache.
pub open spec fn transition(state: ReconcilerModel, event: EventModel) -> (
    ReconcilerModel,
    StepModel,
) {
    match event {
        EventModel::Woke => if state.cached is None {
            proceed(
                state,
                state.cached,
                Phase::FetchingRecord,
                ActionModel::FetchRecord,
                Notice::RecordWanted,
            )
        } else {
            proceed(
                state,
                state.cached,
                Phase::FetchingPublicIp,
                ActionModel::FetchPublicIp,
                Notice::PublicIpWanted,
            )
        },
        EventModel::Record(Ok(response)) => proceed(
            state,
            Some(response.result),
            Phase::FetchingPublicIp,
            ActionModel::FetchPublicIp,
            Notice::PublicIpWanted,
        ),
        EventModel::Record(Err(failure)) => rest(
            state,
            state.cached,
            Notice::RecordUnavailable(failure),
        ),
        EventModel::PublicIp(Err(failure)) => rest(
            state,
            state.cached,
            Notice::PublicIpUnavailable(failure),
        ),
        EventModel::PublicIp(Ok(address)) => match state.cached {
            None => rest(state, state.cached, Notice::RecordMissing),
            Some(record) => if same_text(address, record.content) {
                rest(state, state.cached, Notice::Unchanged)
            } else {
                proceed(
                    state,
                    state.cached,
                    Phase::Updating,
                    ActionModel::PushUpdate { record: payload_for(record, address) },
                    Notice::Changed,
                )
            },
        },
        EventModel::Updated(answer) => rest(
            state,
            cache_after_update(answer),
            update_notice(answer),
        ),
    }
}

/// What any event leads to: the transition where the event answers the
/// phase, no step and an unchanged state where it does not.
pub open spec fn react(state: ReconcilerModel, event: EventModel) -> (
    ReconcilerModel,
    Option<StepModel>,
) {
    if answers(state.phase, event) {
        (transition(state, event).0, Some(transition(state, event).1))
    } else {
        (state, None)
    }
}

impl Reconciler {
    /// A reconciler with an empty cache, about to wait for the first time.
    pub fn new(settings: Settings) -> (reconciler: Reconciler)
        ensures
            reconciler.deep_view() == initial(settings.deep_view()),
    {
        Reconciler { settings, cache: RecordCache::new(), phase: Phase::Sleeping }
    }

    /// The action a fresh reconciler begins with: the first wait.
    pub fn first_action(&self) -> (action: Action)
        ensures
            action.deep_view() == (ActionModel::Sleep {
                seconds: self.deep_view().settings.wait_duration,
            }),
    {
        Action::Sleep { seconds: self.settings.wait_duration }
    }

    /// The settings the reconciler was started with.
    pub fn settings(&self) -> (settings: &Settings)
        ensures
            settings.deep_view() == self.deep_view().settings,
    {
        &self.settings
    }

    /// The cached record, if there is one.
    pub fn cached_record(&self) -> (record: Option<&CloudflareDnsResult>)
        ensures
            record.deep_view() == self.deep_view().cached,
    {
        self.cache.read()
    }

    /// What the reconciler is waiting for.
    pub fn phase(&self) -> (phase: Phase)
        ensures
            phase == self.deep_view().phase,
    {
        self.phase
    }

    /// Takes the outcome of the action that is under way and says what to do
    /// next. An event that does not answer the phase is refused: the result
    /// is `None` and nothing changes.
    pub fn step(&mut self, event: Event) -> (out: Option<Step>)
        ensures
            (final(self).deep_view(), out.deep_view()) == react(
                old(self).deep_view(),
                event.deep_view(),
            ),
    {
        let seconds = self.settings.wait_duration;
        match (self.phase, event) {
            (Phase::Sleeping, Event::Woke) => {
                if self.cache.read().is_none() {
                    self.phase = Phase::FetchingRecord;
                    Some(Step { action: Action::FetchRecord, notice: Notice::RecordWanted })
                } else {
                    self.phase = Phase::FetchingPublicIp;
                    Some(Step { action: Action::FetchPublicIp, notice: Notice::PublicIpWanted })
                }
            },
            (Phase::FetchingRecord, Event::Record(Ok(response))) => {
                self.cache.replace(response.result);
                self.phase = Phase::FetchingPublicIp;
                Some(Step { action: Action::FetchPublicIp, notice: Notice::PublicIpWanted })
            },
            (Phase::FetchingRecord, Event::Record(Err(failure))) => {
                self.phase = Phase::Sleeping;
                Some(
                    Step {
                        action: Action::Sleep { seconds },
                        notice: Notice::RecordUnavailable(failure),
                    },
                )
            },
            (Phase::FetchingPublicIp, Event::PublicIp(Err(failure))) => {
                self.phase = Phase::Sleeping;
                Some(
                    Step {
                        action: Action::Sleep { seconds },
                        notice: Notice::PublicIpUnavailable(failure),
                    },
                )
            },
            (Phase::FetchingPublicIp, Event::PublicIp(Ok(address))) => {
                let step = match self.cache.read() {
                    None => Step {
                        action: Action::Sleep { seconds },
                        notice: Notice::RecordMissing,
                    },
                    Some(record) => {
                        if same_address(address.as_str(), record.content.as_str()) {
                            Step { action: Action::Sleep { seconds }, notice: Notice::Unchanged }
                        } else {
                            Step {
                                action: Action::PushUpdate {
                                    record: updated_record(record, address),
                                },
                                notice: Notice::Changed,
                            }
                        }
                    },
                };
                self.phase = match step.action {
                    Action::PushUpdate { .. } => Phase::Updating,
                    _ => Phase::Sleeping,
                };
                Some(step)
            },
            (Phase::Updating, Event::Updated(answer)) => {
                let (kept, notice) = accept_update(answer);
                match kept {
                    Some(record) => self.cache.replace(record),
                    None => self.cache.discard(),
                }
                self.phase = Phase::Sleeping;
                Some(Step { action: Action::Sleep { seconds }, notice })
            },
            _ => None,
        }
    }
}

} // verus!
