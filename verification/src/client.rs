//! The client: its configuration, the running flag, the snapshot that was
//! polled last and the channel to the subscribers. The client decides and
//! keeps state; timers and the network belong to the caller.

use vstd::prelude::*;
use vstd::string::*;
use crate::channel::{open_channel, send_snapshot, sent_before, sent_on, subscribe_to};
use crate::config::{ConfigView, LimelightConfig};
use crate::duplicate::Duplicate;
use crate::error::{ErrorView, LimelightError};
use crate::models::{LimelightResult, ResultView};
use crate::poller::Poller;

verus! {

/// How many unread snapshots the channel keeps for a subscriber before the
/// oldest is dropped.
pub const CHANNEL_CAPACITY: usize = 100;

/// A client of one camera.
pub struct LimelightClient {
    config: LimelightConfig,
    running: bool,
    generation: u64,
    latest_result: Option<LimelightResult>,
    result_tx: tokio::sync::broadcast::Sender<LimelightResult>,
}

/// The state of a client as a mathematical value.
pub ghost struct ClientView {
    pub config: ConfigView,
    /// `Running` or `Stopped`.
    pub running: bool,
    /// The number of the background task that serves the client: each task
    /// that is spawned gets the next one, and a task with an older number
    /// ends at its next wake.
    pub generation: u64,
    pub latest: Option<ResultView>,
    /// The snapshots that were handed to subscribers so far, oldest first.
    pub published: Seq<ResultView>,
}

/// The generation after `generation`; the count starts again after the last
/// number.
pub open spec fn next_generation(generation: u64) -> u64 {
    if generation == u64::MAX {
        0
    } else {
        (generation + 1) as u64
    }
}

impl ClientView {
    /// The state of a new client: stopped, with nothing polled yet.
    pub open spec fn fresh(config: ConfigView) -> ClientView {
        ClientView {
            config,
            running: false,
            generation: 0,
            latest: None,
            published: Seq::empty(),
        }
    }

    /// The polling period, in milliseconds.
    pub open spec fn poll_rate(self) -> u64 {
        self.config.poll_interval_ms
    }

    /// The state after a request for a new polling period: a period of zero
    /// is refused and changes nothing.
    pub open spec fn with_poll_rate(self, interval_ms: u64) -> ClientView {
        if interval_ms == 0 {
            self
        } else {
            ClientView {
                config: ConfigView { poll_interval_ms: interval_ms, ..self.config },
                ..self
            }
        }
    }

    /// Whether `start` has a background task spawned: only from `Stopped`.
    pub open spec fn spawns(self) -> bool {
        !self.running
    }

    /// The state after `start`: running, under a new generation where a task
    /// is spawned.
    pub open spec fn started(self) -> ClientView {
        if self.running {
            self
        } else {
            ClientView { running: true, generation: next_generation(self.generation), ..self }
        }
    }

    /// The background task that a spawn in this state hands out: of the
    /// current generation, its timer armed with the current period.
    pub open spec fn poller(self) -> Poller {
        Poller { generation: self.generation, armed_interval_ms: self.poll_rate() }
    }

    /// Whether a new configuration has the background task replaced: only
    /// while running, and only where the address of the camera changes. A
    /// new period alone reaches the running task at its next wake.
    pub open spec fn restarts_for(self, config: ConfigView) -> bool {
        self.running && config.poll_interval_ms != 0 && (config.host != self.config.host
            || config.port != self.config.port)
    }

    /// The state after a request for a new configuration: one with a period
    /// of zero is refused and changes nothing.
    pub open spec fn with_config(self, config: ConfigView) -> ClientView {
        if config.poll_interval_ms == 0 {
            self
        } else if self.restarts_for(config) {
            ClientView { config, generation: next_generation(self.generation), ..self }
        } else {
            ClientView { config, ..self }
        }
    }

    /// The state after `stop`.
    pub open spec fn stopped(self) -> ClientView {
        ClientView { running: false, ..self }
    }

    /// The state after one poll: a snapshot replaces the cached one and,
    /// where somebody subscribes (`heard`), is the newest that was published;
    /// a failure changes nothing.
    pub open spec fn recorded(self, snapshot: Option<ResultView>, heard: bool) -> ClientView {
        match snapshot {
            Some(s) => ClientView {
                latest: Some(s),
                published: if heard {
                    self.published.push(s)
                } else {
                    self.published
                },
                ..self
            },
            None => self,
        }
    }
}

/// The error of a polling period of zero.
pub open spec fn zero_interval_error() -> ErrorView {
    ErrorView::ConfigError("Poll interval cannot be zero"@)
}

/// What a poll has fetched, as far as the state of the client depends on it.
pub open spec fn snapshot_of(fetched: Result<LimelightResult, LimelightError>) -> Option<
    ResultView,
> {
    match fetched {
        Ok(s) => Some(s@),
        Err(_) => None,
    }
}

fn following(generation: u64) -> (r: u64)
    ensures
        r == next_generation(generation),
{
    if generation == u64::MAX {
        0
    } else {
        generation + 1
    }
}

impl View for LimelightClient {
    type V = ClientView;

    closed spec fn view(&self) -> ClientView {
        ClientView {
            config: self.config@,
            running: self.running,
            generation: self.generation,
            latest: match self.latest_result {
                Some(s) => Some(s@),
                None => None,
            },
            published: sent_on(self.result_tx),
        }
    }
}

impl LimelightClient {
    /// A stopped client for the camera at `config`, without subscribers.
    pub fn new(config: LimelightConfig) -> (client: Self)
        ensures
            client@ == ClientView::fresh(config@),
    {
        LimelightClient {
            config,
            running: false,
            generation: 0,
            latest_result: None,
            result_tx: open_channel(CHANNEL_CAPACITY),
        }
    }

    /// The configuration.
    pub fn config(&self) -> (r: &LimelightConfig)
        ensures
            r@ == self@.config,
    {
        &self.config
    }

    /// The polling period, in milliseconds.
    pub fn get_poll_rate(&self) -> (r: u64)
        ensures
            r == self@.poll_rate(),
    {
        self.config.poll_interval_ms
    }

    /// Sets the polling period. A period of zero is refused with a
    /// `ConfigError` and leaves the period as it was. A running poller is not
    /// restarted: it takes the new period at its next wake.
    pub fn set_poll_rate(&mut self, interval_ms: u64) -> (r: Result<(), LimelightError>)
        ensures
            final(self)@ == old(self)@.with_poll_rate(interval_ms),
            match r {
                Ok(_) => interval_ms > 0,
                Err(e) => interval_ms == 0 && e@ == zero_interval_error(),
            },
    {
        if interval_ms == 0 {
            return Err(
                LimelightError::ConfigError(String::from_str("Poll interval cannot be zero")),
            );
        }
        self.config.poll_interval_ms = interval_ms;
        Ok(())
    }

    /// A new handle on which every snapshot polled from now on arrives, in
    /// the order in which it was polled: the handle starts behind the
    /// snapshots that were published before this call.
    pub fn subscribe(&self) -> (rx: tokio::sync::broadcast::Receiver<LimelightResult>)
        ensures
            sent_before(rx) == self@.published,
    {
        subscribe_to(&self.result_tx)
    }

    /// Whether the client is in the state `Running`.
    pub fn is_running(&self) -> (r: bool)
        ensures
            r == self@.running,
    {
        self.running
    }

    /// Starts polling. From `Stopped` the client goes to `Running` and hands
    /// out the poller that the caller is to drive on a background task. From
    /// `Running` nothing changes and nothing is handed out.
    pub fn start(&mut self) -> (r: Option<Poller>)
        ensures
            final(self)@ == old(self)@.started(),
            match r {
                Some(poller) => old(self)@.spawns() && poller == final(self)@.poller(),
                None => !old(self)@.spawns(),
            },
    {
        if self.running {
            return None;
        }
        self.running = true;
        self.generation = following(self.generation);
        Some(Poller { generation: self.generation, armed_interval_ms: self.config.poll_interval_ms })
    }

    /// Replaces the configuration. One with a period of zero is refused with
    /// a `ConfigError` and changes nothing. While the client is running, a
    /// new address of the camera has the background task replaced: the poller
    /// for the new task is handed out, and the old task ends at its next
    /// wake. A new period alone replaces nothing.
    pub fn set_config(&mut self, config: LimelightConfig) -> (r: Result<
        Option<Poller>,
        LimelightError,
    >)
        ensures
            final(self)@ == old(self)@.with_config(config@),
            match r {
                Ok(Some(poller)) => old(self)@.restarts_for(config@)
                    && poller == final(self)@.poller(),
                Ok(None) => config.poll_interval_ms > 0 && !old(self)@.restarts_for(config@),
                Err(e) => config.poll_interval_ms == 0 && e@ == zero_interval_error(),
            },
    {
        if config.poll_interval_ms == 0 {
            return Err(
                LimelightError::ConfigError(String::from_str("Poll interval cannot be zero")),
            );
        }
        let moved = config.host != self.config.host || config.port != self.config.port;
        self.config = config;
        if self.running && moved {
            self.generation = following(self.generation);
            Ok(
                Some(
                    Poller {
                        generation: self.generation,
                        armed_interval_ms: self.config.poll_interval_ms,
                    },
                ),
            )
        } else {
            Ok(None)
        }
    }

    /// The generation of the background task that serves the client.
    pub fn generation(&self) -> (r: u64)
        ensures
            r == self@.generation,
    {
        self.generation
    }

    /// Stops polling: the poller ends at its next wake. The cached snapshot
    /// stays.
    pub fn stop(&mut self)
        ensures
            final(self)@ == old(self)@.stopped(),
    {
        self.running = false;
    }

    /// The snapshot that was polled last, if there is one.
    pub fn get_latest_result(&self) -> (r: Option<&LimelightResult>)
        ensures
            match r {
                Some(s) => self@.latest == Some(s@),
                None => self@.latest is None,
            },
    {
        self.latest_result.as_ref()
    }

    /// Records what one poll has fetched. A snapshot replaces the cached one
    /// and is handed to the subscribers there are, none included: the result
    /// is their number, or nothing where nobody subscribes, and only then the
    /// snapshot is not published. A failure is handed back for the caller to
    /// report and changes nothing. Neither ends the polling.
    pub fn record_poll(&mut self, fetched: Result<LimelightResult, LimelightError>) -> (r: Result<
        Option<usize>,
        LimelightError,
    >)
        ensures
            final(self)@ == old(self)@.recorded(snapshot_of(fetched), r matches Ok(Some(_))),
            match r {
                Ok(delivered) => fetched is Ok && (delivered matches Some(n) ==> n >= 1),
                Err(e) => fetched == Err::<LimelightResult, LimelightError>(e),
            },
    {
        match fetched {
            Ok(snapshot) => {
                let delivered = send_snapshot(&mut self.result_tx, snapshot.duplicate());
                self.latest_result = Some(snapshot);
                Ok(delivered)
            },
            Err(e) => Err(e),
        }
    }
}

} // verus!
