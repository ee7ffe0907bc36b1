//! The background task of a running client, as a state machine that the
//! caller drives: at each tick of its timer the caller asks what to do.

use vstd::prelude::*;
use crate::client::{ClientView, LimelightClient};
use crate::config::ConfigView;
use crate::request::{get_of, Request, RequestView};

verus! {

/// The state of one background task: its generation, and the period that
/// its timer is armed with.
#[derive(Clone, Copy, Debug, PartialEq, Eq, Structural)]
pub struct Poller {
    pub generation: u64,
    pub armed_interval_ms: u64,
}

/// What the background task does at a tick.
#[derive(Debug)]
pub enum Wake {
    /// The client was stopped: the task ends.
    Exit,
    /// The task polls once more: it sends `request` and, where `rearm` holds
    /// a period, first replaces its timer by one of that period.
    Fetch { rearm: Option<u64>, request: Request },
}

/// A wake as a mathematical value.
pub ghost enum WakeView {
    Exit,
    Fetch { rearm: Option<u64>, request: RequestView },
}

impl View for Wake {
    type V = WakeView;

    open spec fn view(&self) -> WakeView {
        match self {
            Wake::Exit => WakeView::Exit,
            Wake::Fetch { rearm, request } => WakeView::Fetch { rearm: *rearm, request: request@ },
        }
    }
}

/// The request that polls the camera for a snapshot.
pub open spec fn results_request(config: ConfigView) -> RequestView {
    get_of(config, "results"@)
}

/// Whether a task still serves the client: the client is running, and no
/// task was spawned after this one.
pub open spec fn serves(poller: Poller, client: ClientView) -> bool {
    client.running && client.generation == poller.generation
}

/// What a task does at a tick, given the state of the client: it ends where
/// it serves the client no more; else it polls, and rearms its timer only if
/// the period has changed.
pub open spec fn wake_of(poller: Poller, client: ClientView) -> WakeView {
    if !serves(poller, client) {
        WakeView::Exit
    } else {
        WakeView::Fetch {
            rearm: if client.poll_rate() != poller.armed_interval_ms {
                Some(client.poll_rate())
            } else {
                None
            },
            request: results_request(client.config),
        }
    }
}

/// The task after a tick: where it goes on, its timer is armed with the
/// period of the client.
pub open spec fn after_wake(poller: Poller, client: ClientView) -> Poller {
    if serves(poller, client) {
        Poller { armed_interval_ms: client.poll_rate(), ..poller }
    } else {
        poller
    }
}

impl Poller {
    /// Decides what the task does at a tick of its timer.
    pub fn wake(&mut self, client: &LimelightClient) -> (r: Wake)
        ensures
            r@ == wake_of(*old(self), client@),
            *final(self) == after_wake(*old(self), client@),
    {
        if !client.is_running() || client.generation() != self.generation {
            return Wake::Exit;
        }
        let interval_ms = client.get_poll_rate();
        let rearm = if interval_ms != self.armed_interval_ms {
            Some(interval_ms)
        } else {
            None
        };
        self.armed_interval_ms = interval_ms;
        Wake::Fetch { rearm, request: Request::get(client.config(), "results") }
    }
}

} // verus!
