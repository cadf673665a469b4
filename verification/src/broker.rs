use vstd::prelude::*;

use crate::messages::WebMessage;

verus! {

// ---------------------------------------------------------------------------
// Per-subscriber delivery queue: bounded, dropping the oldest undelivered
// message on overflow. Delivery is at-most-once and best-effort by design; a
// slow subscriber loses the oldest messages, never the newest.
// ---------------------------------------------------------------------------

/// A bounded message queue for one operator session.
pub struct SessionQueue {
    items: Vec<WebMessage>,
    capacity: usize,
}

impl SessionQueue {
    /// The queued messages, oldest first.
    pub closed spec fn view(&self) -> Seq<WebMessage> {
        self.items@
    }

    /// The fixed capacity.
    pub closed spec fn cap(&self) -> int {
        self.capacity as int
    }

    /// The queue never exceeds its capacity.
    pub open spec fn wf(&self) -> bool {
        self.view().len() <= self.cap() && self.cap() >= 1
    }

    pub fn new(capacity: usize) -> (r: SessionQueue)
        requires
            capacity >= 1,
        ensures
            r.wf(),
            r.cap() == capacity,
            r.view().len() == 0,
    {
        SessionQueue { items: Vec::new(), capacity }
    }

    /// Law: enqueuing keeps the bound; a full queue drops its oldest
    /// message, a queue with room keeps everything.
    pub fn push(&mut self, msg: WebMessage)
        requires
            old(self).wf(),
        ensures
            final(self).wf(),
            final(self).cap() == old(self).cap(),
            (if old(self).view().len() < old(self).cap() {
                final(self).view() == old(self).view().push(msg)
            } else {
                final(self).view() == old(self).view().drop_first().push(msg)
            }),
    {
        if self.items.len() == self.capacity {
            self.items.remove(0);
            proof {
                assert(self.items@ =~= old(self).view().drop_first());
            }
        }
        self.items.push(msg);
    }

    /// Takes the oldest queued message, if any.
    pub fn pop(&mut self) -> (r: Option<WebMessage>)
        requires
            old(self).wf(),
        ensures
            final(self).wf(),
            final(self).cap() == old(self).cap(),
            (if old(self).view().len() == 0 {
                r is None && final(self).view() == old(self).view()
            } else {
                r matches Some(m) && m == old(self).view()[0] && final(self).view() == old(
                    self,
                ).view().drop_first()
            }),
    {
        if self.items.len() == 0 {
            None
        } else {
            let m = self.items.remove(0);
            proof {
                assert(self.items@ =~= old(self).view().drop_first());
            }
            Some(m)
        }
    }

    /// How many messages wait.
    pub fn len(&self) -> (r: usize)
        ensures
            r == self.view().len(),
    {
        self.items.len()
    }
}

} // verus!
