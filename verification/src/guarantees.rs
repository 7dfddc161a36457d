//! What holds of the reconciler in every state and for every event.
//!
//! Each statement is over the models that the contracts of
//! `Reconciler::step` and `Reconciler::new` speak of, so it holds of every
//! run of the executable code.

use crate::cloudflare_api::{DnsResultModel, ResponseModel};
use crate::config::SettingsModel;
use crate::reconciler::{
    answers, initial, payload_for, react, ActionModel, EventModel, Failure, Notice, Phase,
    ReconcilerModel, StepModel,
};
use crate::text::{all_whitespace, lemma_trimmed_ignores_surrounding_whitespace, same_text};
use vstd::prelude::*;

verus! {

/// The phase and the cache fit together: nothing is cached while the record
/// is being fetched, and a record is cached while the public address is
/// being fetched or an update is under way.
pub open spec fn consistent(state: ReconcilerModel) -> bool {
    match state.phase {
        Phase::Sleeping => true,
        Phase::FetchingRecord => state.cached is None,
        Phase::FetchingPublicIp | Phase::Updating => state.cached is Some,
    }
}

/// The step asks the driver to send an update.
pub open spec fn pushes_update(step: Option<StepModel>) -> bool {
    step matches Some(taken) && taken.action is PushUpdate
}

/// The step asks the driver to wait for the configured time.
pub open spec fn sleeps(state: ReconcilerModel, step: Option<StepModel>) -> bool {
    step matches Some(taken) && taken.action == (ActionModel::Sleep {
        seconds: state.settings.wait_duration,
    })
}

/// A fresh reconciler is consistent, and every event leaves a consistent
/// reconciler consistent.
pub proof fn lemma_consistency_is_kept(
    settings: SettingsModel,
    state: ReconcilerModel,
    event: EventModel,
)
    ensures
        consistent(initial(settings)),
        consistent(state) ==> consistent(react(state, event).0),
{
}

/// The settings never change, and an event that does not answer the phase
/// changes nothing at all.
pub proof fn lemma_settings_are_fixed(state: ReconcilerModel, event: EventModel)
    ensures
        react(state, event).0.settings == state.settings,
        !answers(state.phase, event) ==> react(state, event) == (state, None::<StepModel>),
{
}

/// In a consistent state the public address never arrives without a cached
/// record to compare it with.
pub proof fn lemma_record_is_there_to_compare(state: ReconcilerModel, event: EventModel)
    requires
        consistent(state),
    ensures
        react(state, event).1 matches Some(taken) ==> taken.notice != Notice::RecordMissing,
{
}

/// No change, no update: when the fetched address is the cached content with
/// any whitespace before and behind it, the step is a wait and the cache
/// holds what it held.
pub proof fn lemma_same_address_changes_nothing(
    state: ReconcilerModel,
    record: DnsResultModel,
    lead: Seq<char>,
    trail: Seq<char>,
)
    requires
        state.phase == Phase::FetchingPublicIp,
        state.cached == Some(record),
        all_whitespace(lead),
        all_whitespace(trail),
    ensures
        ({
            let address = lead + record.content + trail;
            let after = react(state, EventModel::PublicIp(Ok(address)));
            &&& sleeps(state, after.1)
            &&& !pushes_update(after.1)
            &&& after.0.cached == state.cached
            &&& after.0.phase == Phase::Sleeping
        }),
{
    lemma_trimmed_ignores_surrounding_whitespace(lead, record.content, trail);
}

/// The same for any two texts that are equal once trimmed.
pub proof fn lemma_equal_when_trimmed_changes_nothing(
    state: ReconcilerModel,
    record: DnsResultModel,
    address: Seq<char>,
)
    requires
        state.phase == Phase::FetchingPublicIp,
        state.cached == Some(record),
        same_text(address, record.content),
    ensures
        ({
            let after = react(state, EventModel::PublicIp(Ok(address)));
            &&& sleeps(state, after.1)
            &&& after.0.cached == state.cached
        }),
{
}

/// A different address goes out as one update: its content is the address
/// as fetched, every other field is the cached record's, the cache is not
/// touched, and whatever answers the update ends the iteration.
pub proof fn lemma_different_address_is_pushed_once(
    state: ReconcilerModel,
    record: DnsResultModel,
    address: Seq<char>,
    answer: Result<ResponseModel<DnsResultModel>, Failure>,
)
    requires
        state.phase == Phase::FetchingPublicIp,
        state.cached == Some(record),
        !same_text(address, record.content),
    ensures
        ({
            let after = react(state, EventModel::PublicIp(Ok(address)));
            let payload = payload_for(record, address);
            &&& after.1 matches Some(taken)
            &&& taken.action == (ActionModel::PushUpdate { record: payload })
            &&& payload.content == address
            &&& payload.dns_type == record.dns_type
            &&& payload.name == record.name
            &&& payload.ttl == record.ttl
            &&& payload.proxied == record.proxied
            &&& after.0.cached == state.cached
            &&& after.0.phase == Phase::Updating
            &&& sleeps(state, react(after.0, EventModel::Updated(answer)).1)
        }),
{
}

/// An update goes out only in answer to a public address that differs from
/// the content of the cached record.
pub proof fn lemma_update_needs_a_difference(state: ReconcilerModel, event: EventModel)
    requires
        pushes_update(react(state, event).1),
    ensures
        state.phase == Phase::FetchingPublicIp,
        event matches EventModel::PublicIp(Ok(address)) && state.cached matches Some(record)
            && !same_text(address, record.content),
{
}

/// An update that the provider did not acknowledge, or that got no readable
/// answer, empties the cache, and the next iteration begins with a fetch of
/// the record.
pub proof fn lemma_failed_update_empties_cache(
    state: ReconcilerModel,
    answer: Result<ResponseModel<DnsResultModel>, Failure>,
)
    requires
        state.phase == Phase::Updating,
        answer matches Ok(response) ==> !response.success,
    ensures
        ({
            let after = react(state, EventModel::Updated(answer));
            let next = react(after.0, EventModel::Woke);
            &&& after.0.cached is None
            &&& sleeps(state, after.1)
            &&& next.1 matches Some(taken)
            &&& taken.action == ActionModel::FetchRecord
            &&& next.0.phase == Phase::FetchingRecord
        }),
{
}

/// An acknowledged update puts the answer's record in the cache.
pub proof fn lemma_acknowledged_update_is_cached(
    state: ReconcilerModel,
    response: ResponseModel<DnsResultModel>,
)
    requires
        state.phase == Phase::Updating,
        response.success,
    ensures
        ({
            let after = react(state, EventModel::Updated(Ok(response)));
            &&& after.0.cached == Some(response.result)
            &&& sleeps(state, after.1)
        }),
{
}

/// A public address that could not be fetched leads to no update and leaves
/// the cache as it is.
pub proof fn lemma_failed_public_ip_changes_nothing(state: ReconcilerModel, failure: Failure)
    requires
        state.phase == Phase::FetchingPublicIp,
    ensures
        ({
            let after = react(state, EventModel::PublicIp(Err(failure)));
            &&& sleeps(state, after.1)
            &&& !pushes_update(after.1)
            &&& after.0.cached == state.cached
        }),
{
}

/// With an empty cache an iteration begins with the fetch of the record. If
/// that fetch fails the iteration ends there: nothing is compared, no update
/// goes out and the cache stays empty. If it succeeds the record is cached
/// before the public address is asked for.
pub proof fn lemma_cold_start_fetches_record_first(
    state: ReconcilerModel,
    failure: Failure,
    response: ResponseModel<DnsResultModel>,
)
    requires
        state.phase == Phase::Sleeping,
        state.cached is None,
    ensures
        ({
            let woken = react(state, EventModel::Woke);
            let failed = react(woken.0, EventModel::Record(Err(failure)));
            let fetched = react(woken.0, EventModel::Record(Ok(response)));
            &&& woken.1 matches Some(taken) && taken.action == ActionModel::FetchRecord
            &&& woken.0.phase == Phase::FetchingRecord
            &&& sleeps(state, failed.1)
            &&& !pushes_update(failed.1)
            &&& failed.0.cached is None
            &&& fetched.1 matches Some(asked) && asked.action == ActionModel::FetchPublicIp
            &&& fetched.0.cached == Some(response.result)
        }),
{
}

/// With a cached record an iteration begins with the fetch of the public
/// address: the record is not fetched again.
pub proof fn lemma_warm_start_skips_record_fetch(state: ReconcilerModel)
    requires
        state.phase == Phase::Sleeping,
        state.cached is Some,
    ensures
        ({
            let woken = react(state, EventModel::Woke);
            &&& woken.1 matches Some(taken) && taken.action == ActionModel::FetchPublicIp
            &&& woken.0.cached == state.cached
        }),
{
}

/// Every failure ends the iteration with the same wait: the wait does not
/// grow with failures, and no event stops the loop.
pub proof fn lemma_every_answered_event_goes_on(state: ReconcilerModel, event: EventModel)
    requires
        answers(state.phase, event),
    ensures
        react(state, event).1 is Some,
        react(state, event).0.phase == Phase::Sleeping <==> sleeps(state, react(state, event).1),
{
}

} // verus!
