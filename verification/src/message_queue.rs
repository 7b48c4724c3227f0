//! Bounded FIFO of outbound text frames for one client. When more than a
//! thousand messages wait, the oldest is dropped on the next enqueue:
//! snapshots are self-contained, so a slow consumer only ever needs the most
//! recent one.

use vstd::prelude::*;
use vstd::pervasive::cloned;

verus! {

/// The soft capacity: an enqueue on a longer queue first drops the oldest
/// message.
pub const QUEUE_SOFT_CAP: usize = 1000;

pub struct MessageQueue<T> {
    queue: Vec<T>,
}

impl<T> View for MessageQueue<T> {
    type V = Seq<T>;

    closed spec fn view(&self) -> Seq<T> {
        self.queue@
    }
}

impl<T> MessageQueue<T> {
    /// The queue never holds more than the soft capacity plus the one
    /// message enqueued past it.
    pub open spec fn wf(&self) -> bool {
        self@.len() <= QUEUE_SOFT_CAP + 1
    }

    pub fn new() -> (r: Self)
        ensures
            r@ == Seq::<T>::empty(),
            r.wf(),
    {
        MessageQueue { queue: Vec::new() }
    }

    /// Append a message; on an oversize queue the oldest message leaves
    /// first.
    pub fn produce(&mut self, message: T)
        requires
            old(self).wf(),
        ensures
            final(self).wf(),
            final(self)@ == if old(self)@.len() > QUEUE_SOFT_CAP {
                old(self)@.skip(1).push(message)
            } else {
                old(self)@.push(message)
            },
    {
        if self.queue.len() > QUEUE_SOFT_CAP {
            self.queue.remove(0);
            proof {
                assert(self.queue@ =~= old(self)@.skip(1));
            }
        }
        self.queue.push(message);
    }

    /// Pop the oldest message, if any.
    pub fn consume(&mut self) -> (r: Option<T>)
        ensures
            old(self).wf() ==> final(self).wf(),
            old(self)@.len() == 0 ==> r is None && final(self)@ == old(self)@,
            old(self)@.len() > 0 ==> r == Some(old(self)@[0]) && final(self)@ == old(self)@.skip(
                1,
            ),
    {
        if self.queue.len() == 0 {
            None
        } else {
            let m = self.queue.remove(0);
            proof {
                assert(self.queue@ =~= old(self)@.skip(1));
            }
            Some(m)
        }
    }
}

impl<T: Clone> MessageQueue<T> {
    /// A copy of the queue with each pending message cloned.
    pub fn clone(&self) -> (r: Self)
        ensures
            r@.len() == self@.len(),
            forall|i: int| 0 <= i < self@.len() ==> cloned::<T>(self@[i], #[trigger] r@[i]),
            r.wf() == self.wf(),
    {
        MessageQueue { queue: self.queue.clone() }
    }
}

} // verus!
