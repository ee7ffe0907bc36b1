//! The boundary to `tokio::sync::broadcast`: the channel on which snapshots
//! are handed to the subscribers. The client holds the only sender of its
//! channel and never clones it, so what the channel has taken is what went
//! through that sender.

use vstd::prelude::*;
use crate::models::{LimelightResult, ResultView};

verus! {

#[verifier::external_type_specification]
#[verifier::external_body]
#[verifier::reject_recursive_types(T)]
pub struct ExSender<T>(tokio::sync::broadcast::Sender<T>);

#[verifier::external_type_specification]
#[verifier::external_body]
#[verifier::reject_recursive_types(T)]
pub struct ExReceiver<T>(tokio::sync::broadcast::Receiver<T>);

/// The largest capacity that a channel can be made with.
pub const MAX_CAPACITY: usize = usize::MAX / 2;

/// The snapshots that the channel of a sender has taken so far, oldest
/// first. A snapshot sent while nobody subscribes is not taken.
pub uninterp spec fn sent_on(tx: tokio::sync::broadcast::Sender<LimelightResult>) -> Seq<
    ResultView,
>;

/// The snapshots that the channel of a receiver had taken when the receiver
/// subscribed, oldest first. The receiver is offered what the channel takes
/// after these, in the order in which it is taken.
pub uninterp spec fn sent_before(rx: tokio::sync::broadcast::Receiver<LimelightResult>) -> Seq<
    ResultView,
>;

/// Trusted: `tokio::sync::broadcast::channel` makes a channel that has taken
/// nothing yet and keeps at least `capacity` unread snapshots for each
/// subscriber. It panics on a capacity of zero or above half of
/// `usize::MAX`, which `requires` leaves out. The receiver that comes with
/// the channel is dropped: subscribers come later.
#[verifier::external_body]
pub(crate) fn open_channel(capacity: usize) -> (tx: tokio::sync::broadcast::Sender<
    LimelightResult,
>)
    requires
        0 < capacity <= MAX_CAPACITY,
    ensures
        sent_on(tx) == Seq::<ResultView>::empty(),
{
    tokio::sync::broadcast::channel(capacity).0
}

/// Trusted: `tokio::sync::broadcast::Sender::send` has the channel take a
/// snapshot as its newest where somebody subscribes at that moment, and
/// returns the number of subscribers, which is then at least one; with no
/// subscriber the channel takes nothing and hands the snapshot back as an
/// error, which is dropped here. It does not wait for any subscriber.
#[verifier::external_body]
pub(crate) fn send_snapshot(
    tx: &mut tokio::sync::broadcast::Sender<LimelightResult>,
    snapshot: LimelightResult,
) -> (r: Option<usize>)
    ensures
        match r {
            Some(n) => n >= 1 && sent_on(*final(tx)) == sent_on(*old(tx)).push(snapshot@),
            None => sent_on(*final(tx)) == sent_on(*old(tx)),
        },
{
    match tx.send(snapshot) {
        Ok(n) => Some(n),
        Err(_) => None,
    }
}

/// Trusted: `tokio::sync::broadcast::Sender::subscribe` returns a receiver
/// that starts behind everything that the channel has taken so far: it is
/// offered the snapshots sent after this call. It panics only where a
/// quarter of `usize::MAX` receivers are alive, which is more than memory
/// holds.
#[verifier::external_body]
pub(crate) fn subscribe_to(tx: &tokio::sync::broadcast::Sender<LimelightResult>) -> (rx:
    tokio::sync::broadcast::Receiver<LimelightResult>)
    ensures
        sent_before(rx) == sent_on(*tx),
{
    tx.subscribe()
}

} // verus!
