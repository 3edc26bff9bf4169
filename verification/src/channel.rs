//! The queues between the threads of the viewer.
//!
//! What a queue holds at a moment depends on the threads at its other end, so
//! nothing is claimed of what comes out of one, nor of whether it has room.  The
//! number of items in a queue never exceeds the room that it was made with.

use vstd::prelude::*;
use crate::manga_loader::{DecodedImage, DimResult};

verus! {

#[verifier::external_type_specification]
#[verifier::external_body]
#[verifier::reject_recursive_types(T)]
pub struct ExSender<T>(crossbeam_channel::Sender<T>);

#[verifier::external_type_specification]
#[verifier::external_body]
#[verifier::reject_recursive_types(T)]
pub struct ExReceiver<T>(crossbeam_channel::Receiver<T>);

/// What came of putting something into a queue.
#[derive(Clone, Copy, Debug, PartialEq, Eq, Structural)]
pub enum SendOutcome {
    Sent,
    /// The queue has no room now.
    Full,
    /// Nobody takes anything out of the queue any more.
    Disconnected,
}

/// What came of putting `count` items into a queue one after the other, where the
/// first refusal ends it.
pub open spec fn is_send_run(outcomes: Seq<SendOutcome>, count: int) -> bool {
    &&& outcomes.len() <= count
    &&& forall|i: int|
        0 <= i < outcomes.len() - 1 ==> (#[trigger] outcomes[i]) == SendOutcome::Sent
    &&& outcomes.len() < count ==> outcomes.len() > 0 && outcomes.last() != SendOutcome::Sent
}

/// How many items the queue took thereby.
pub open spec fn taken(outcomes: Seq<SendOutcome>) -> int {
    if outcomes.len() > 0 && outcomes.last() != SendOutcome::Sent {
        outcomes.len() - 1
    } else {
        outcomes.len() as int
    }
}

/// Where the queue never refuses, it takes all items.
pub proof fn law_unrefused_run_takes_all(outcomes: Seq<SendOutcome>, count: int)
    requires
        is_send_run(outcomes, count),
        forall|i: int| 0 <= i < outcomes.len() ==> (#[trigger] outcomes[i]) == SendOutcome::Sent,
    ensures
        taken(outcomes) == count,
{
    if outcomes.len() > 0 {
        assert(outcomes[outcomes.len() - 1] == SendOutcome::Sent);
    }
}

/// The room that no queue of the viewer exceeds; a queue that is far larger could
/// not be made.
pub const LARGEST_QUEUE: usize = 1024;

/// `crossbeam_channel::bounded`: the two ends of a new queue with room for the
/// given number of items.
#[verifier::external_body]
pub(crate) fn bounded<T>(capacity: usize) -> (ends: (
    crossbeam_channel::Sender<T>,
    crossbeam_channel::Receiver<T>,
))
    requires
        capacity <= LARGEST_QUEUE,
{
    crossbeam_channel::bounded(capacity)
}

/// How many decoded pictures a queue was made to hold.
pub uninterp spec fn decoded_room(queue: crossbeam_channel::Receiver<DecodedImage>) -> nat;

/// `crossbeam_channel::bounded` for decoded pictures: the new queue holds at most
/// the given number of them at a time.
#[verifier::external_body]
pub(crate) fn decoded_queue(capacity: usize) -> (ends: (
    crossbeam_channel::Sender<DecodedImage>,
    crossbeam_channel::Receiver<DecodedImage>,
))
    requires
        capacity <= LARGEST_QUEUE,
    ensures
        decoded_room(ends.1) == capacity,
{
    crossbeam_channel::bounded(capacity)
}

/// How many lots of dimensions a queue was made to hold.
pub uninterp spec fn dimension_room(queue: crossbeam_channel::Receiver<DimResult>) -> nat;

/// `crossbeam_channel::bounded` for lots of dimensions: the new queue holds at
/// most the given number of them at a time.
#[verifier::external_body]
pub(crate) fn dimension_queue(capacity: usize) -> (ends: (
    crossbeam_channel::Sender<DimResult>,
    crossbeam_channel::Receiver<DimResult>,
))
    requires
        capacity <= LARGEST_QUEUE,
    ensures
        dimension_room(ends.1) == capacity,
{
    crossbeam_channel::bounded(capacity)
}

/// `crossbeam_channel::Sender::try_send`: puts an item into the queue if there is
/// room.  Whether there is depends on the thread that empties the queue.
#[verifier::external_body]
pub(crate) fn try_send<T>(queue: &crossbeam_channel::Sender<T>, item: T) -> (outcome: SendOutcome) {
    match queue.try_send(item) {
        Ok(()) => SendOutcome::Sent,
        Err(crossbeam_channel::TrySendError::Full(_)) => SendOutcome::Full,
        Err(crossbeam_channel::TrySendError::Disconnected(_)) => SendOutcome::Disconnected,
    }
}

/// `crossbeam_channel::Receiver::try_recv`: the next item of the queue, if there
/// is one now.  What it is depends on the thread that fills the queue.
#[verifier::external_body]
pub(crate) fn try_recv<T>(queue: &crossbeam_channel::Receiver<T>) -> (item: Option<T>) {
    queue.try_recv().ok()
}

/// `crossbeam_channel::Receiver::len`: how many decoded pictures are in the queue
/// now, which is never more than it was made to hold.  How many there are depends
/// on the threads that fill the queue.
#[verifier::external_body]
pub(crate) fn decoded_len(queue: &crossbeam_channel::Receiver<DecodedImage>) -> (count: usize)
    ensures
        count <= decoded_room(*queue),
{
    queue.len()
}

/// `crossbeam_channel::Receiver::len`: how many lots of dimensions are in the
/// queue now, which is never more than it was made to hold.  How many there are
/// depends on the threads that fill the queue.
#[verifier::external_body]
pub(crate) fn dimension_len(queue: &crossbeam_channel::Receiver<DimResult>) -> (count: usize)
    ensures
        count <= dimension_room(*queue),
{
    queue.len()
}

/// What a queue took is what was offered before the first refusal.
pub proof fn law_refusal_ends_the_run(outcomes: Seq<SendOutcome>, count: int, i: int)
    requires
        is_send_run(outcomes, count),
        0 <= i < outcomes.len(),
    ensures
        0 <= taken(outcomes) <= count,
        outcomes[i] == SendOutcome::Sent <==> i < taken(outcomes),
        taken(outcomes) < count <==> (outcomes.last() == SendOutcome::Full || outcomes.last()
            == SendOutcome::Disconnected),
        outcomes[i] != SendOutcome::Sent ==> i == outcomes.len() - 1 == taken(outcomes),
{
    assert(outcomes.last() == outcomes[outcomes.len() - 1]);
}

} // verus!
