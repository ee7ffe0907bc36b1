//! What holds of the library as a whole: laws of the result schema, of the
//! client's states and of the poller, each proved from the definitions that
//! the contracts of the functions use.

use vstd::prelude::*;
use crate::client::ClientView;
use crate::config::ConfigView;
use crate::decode::Decode;
use crate::json::Json;
use crate::models::result::known_key;
use crate::models::{LimelightResult, ResultView};
use crate::poller::{after_wake, results_request, serves, wake_of, Poller, WakeView};
use crate::response::{is_success, poll_outcome};

verus! {

/// An object that has no member under any wire key of a snapshot decodes to
/// the snapshot without any entry or field.
pub proof fn lemma_object_without_known_keys_is_empty(j: Json)
    requires
        j is Object,
        forall|key: Seq<char>| known_key(key) ==> !(#[trigger] j->Object_0.contains_key(key)),
    ensures
        LimelightResult::decode(j) == Some(ResultView::empty()),
{
}

/// A member under a key that is no wire key of a snapshot is passed over:
/// adding it to an object, or changing it, does not change what the object
/// decodes to.
pub proof fn lemma_unknown_member_is_passed_over(j: Json, key: Seq<char>, value: Json)
    requires
        j is Object,
        !known_key(key),
    ensures
        LimelightResult::decode(Json::Object(j->Object_0.insert(key, value)))
            == LimelightResult::decode(j),
{
}

/// A missing member never makes a snapshot unreadable: an object that
/// decodes still decodes after any member is taken out of it.
pub proof fn lemma_missing_member_never_fails(j: Json, key: Seq<char>)
    requires
        j is Object,
        LimelightResult::decode(j) is Some,
    ensures
        LimelightResult::decode(Json::Object(j->Object_0.remove(key))) is Some,
{
}

/// A polling period above zero that was set is the period that is read.
pub proof fn lemma_poll_rate_round_trip(client: ClientView, interval_ms: u64)
    requires
        interval_ms > 0,
    ensures
        client.with_poll_rate(interval_ms).poll_rate() == interval_ms,
{
}

/// A polling period of zero is refused and leaves the client as it was.
pub proof fn lemma_zero_poll_rate_changes_nothing(client: ClientView)
    ensures
        client.with_poll_rate(0) == client,
{
}

/// Starting twice is starting once: the second `start` finds the client
/// running, has no task spawned and changes nothing. So of two calls in a
/// row at most the first has a task spawned.
pub proof fn lemma_start_is_idempotent(client: ClientView)
    ensures
        client.started().running,
        !client.started().spawns(),
        client.started().started() == client.started(),
{
}

/// Stopping does not clear the cache: the snapshot that was polled last is
/// still there after `stop`.
pub proof fn lemma_stop_keeps_snapshot(client: ClientView)
    ensures
        client.stopped().latest == client.latest,
        !client.stopped().running,
{
}

/// A poll never ends the polling, nor starts it: whatever it fetched, the
/// client is running after it exactly if it was before, under the same
/// generation and with the same configuration.
pub proof fn lemma_poll_keeps_running(
    client: ClientView,
    snapshot: Option<ResultView>,
    heard: bool,
)
    ensures
        client.recorded(snapshot, heard).running == client.running,
        client.recorded(snapshot, heard).generation == client.generation,
        client.recorded(snapshot, heard).config == client.config,
{
}

/// A failed poll leaves the cached snapshot as it was, and publishes
/// nothing.
pub proof fn lemma_failed_poll_keeps_snapshot(client: ClientView, heard: bool)
    ensures
        client.recorded(None, heard) == client,
{
}

/// An answer with a status outside the 2xx range is a failed poll, whatever
/// its body holds.
pub proof fn lemma_bad_status_is_failure(status: u16, document: Option<Json>)
    requires
        !is_success(status),
    ensures
        poll_outcome(status, document) is None,
{
}

/// The task that `start` has spawned polls at its first wake, without
/// rearming its timer.
pub proof fn lemma_spawned_task_polls(client: ClientView)
    requires
        client.spawns(),
    ensures
        wake_of(client.started().poller(), client.started()) == (WakeView::Fetch {
            rearm: None,
            request: results_request(client.config),
        }),
{
}

/// A stopped client ends every background task at its next wake.
pub proof fn lemma_stopped_client_ends_task(poller: Poller, client: ClientView)
    ensures
        wake_of(poller, client.stopped()) == WakeView::Exit,
{
}

/// At most one task serves a client: two tasks that both go on at a wake in
/// the same state of the client are of the same generation.
pub proof fn lemma_one_task_serves(first: Poller, second: Poller, client: ClientView)
    requires
        serves(first, client),
        serves(second, client),
    ensures
        first.generation == second.generation,
{
}

/// Stopping and starting again retires the task that served the client
/// before: it ends at its next wake even if it did not wake in between, and
/// the task spawned by the new `start` is the one that polls.
pub proof fn lemma_restart_retires_task(poller: Poller, client: ClientView)
    requires
        serves(poller, client),
    ensures
        client.stopped().spawns(),
        wake_of(poller, client.stopped().started()) == WakeView::Exit,
        serves(client.stopped().started().poller(), client.stopped().started()),
{
}

/// A new address of the camera replaces the task of a running client: the
/// old task ends at its next wake, and the new one polls the new address.
pub proof fn lemma_new_address_replaces_task(poller: Poller, client: ClientView, config: ConfigView)
    requires
        serves(poller, client),
        config.poll_interval_ms > 0,
        config.host != client.config.host || config.port != client.config.port,
    ensures
        client.restarts_for(config),
        wake_of(poller, client.with_config(config)) == WakeView::Exit,
        wake_of(client.with_config(config).poller(), client.with_config(config)) == (
        WakeView::Fetch { rearm: None, request: results_request(config) }),
{
}

/// A new period alone replaces no task: the task that serves the client
/// goes on, and rearms its timer at its next wake exactly if the period
/// differs from the one that the timer is armed with.
pub proof fn lemma_new_period_keeps_task(poller: Poller, client: ClientView, interval_ms: u64)
    requires
        serves(poller, client),
        interval_ms > 0,
    ensures
        !client.restarts_for(client.with_poll_rate(interval_ms).config),
        client.with_config(client.with_poll_rate(interval_ms).config) == client.with_poll_rate(
            interval_ms,
        ),
        wake_of(poller, client.with_poll_rate(interval_ms)) == (WakeView::Fetch {
            rearm: if interval_ms != poller.armed_interval_ms {
                Some(interval_ms)
            } else {
                None
            },
            request: results_request(client.config),
        }),
{
}

/// The timer is rearmed once for each change of the period: after a wake of
/// the task that serves the client, a second wake in the same state leaves
/// the timer alone.
pub proof fn lemma_timer_rearmed_once(poller: Poller, client: ClientView)
    requires
        serves(poller, client),
    ensures
        wake_of(after_wake(poller, client), client) == (WakeView::Fetch {
            rearm: None,
            request: results_request(client.config),
        }),
{
}

/// A stopped client stays as it is under a new configuration but for the
/// configuration itself: no task is spawned for it.
pub proof fn lemma_stopped_client_takes_config(client: ClientView, config: ConfigView)
    requires
        !client.running,
        config.poll_interval_ms > 0,
    ensures
        !client.restarts_for(config),
        client.with_config(config) == (ClientView { config, ..client }),
{
}

} // verus!
