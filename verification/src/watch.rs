//! Watching the game server record: the server streams snapshots and the
//! caller drains them — a lazy, in-order sequence with no reordering and no
//! drops, until the server closes the stream or an error ends it. A dropped
//! or ended stream is not restarted; continued observation needs a new
//! watch call.

use crate::types::GameServer;
use vstd::prelude::*;

verus! {

/// The caller's end of one watch call. The transport loop appends each
/// snapshot the server emits with [`WatchStream::on_message`]; the caller
/// takes them, oldest first, with [`WatchStream::next`].
pub struct WatchStream {
    /// Snapshots delivered but not yet taken, oldest first.
    pub queue: Vec<GameServer>,
    /// Ghost: everything the server has emitted on this call, in order.
    pub emitted: Ghost<Seq<GameServer>>,
    /// Ghost: everything handed to the caller so far, in order.
    pub taken: Ghost<Seq<GameServer>>,
    /// Whether the server has closed the stream. Terminal for this call.
    pub closed: bool,
}

impl WatchStream {
    /// Snapshots delivered but not yet taken, oldest first.
    pub open spec fn pending(self) -> Seq<GameServer> {
        self.queue@
    }

    /// Nothing is lost and nothing reordered: what the server emitted is
    /// exactly what was taken followed by what is still pending.
    pub open spec fn wf(self) -> bool {
        self.emitted@ == self.taken@ + self.queue@
    }

    /// A fresh watch call: nothing emitted, nothing taken, stream open.
    pub fn new() -> (w: Self)
        ensures
            w.wf(),
            w.emitted@ == Seq::<GameServer>::empty(),
            w.taken@ == Seq::<GameServer>::empty(),
            w.pending() == Seq::<GameServer>::empty(),
            !w.closed,
    {
        let w = WatchStream {
            queue: Vec::new(),
            emitted: Ghost(Seq::empty()),
            taken: Ghost(Seq::empty()),
            closed: false,
        };
        proof {
            assert(w.emitted@ =~= w.taken@ + w.queue@);
        }
        w
    }

    /// One snapshot arrived from the server: it joins the back of the
    /// pending queue, behind everything emitted before it.
    pub fn on_message(&mut self, gs: GameServer)
        requires
            old(self).wf(),
            !old(self).closed,
        ensures
            final(self).wf(),
            final(self).emitted@ == old(self).emitted@.push(gs),
            final(self).taken@ == old(self).taken@,
            final(self).pending() == old(self).pending().push(gs),
            final(self).closed == old(self).closed,
    {
        self.queue.push(gs);
        proof {
            self.emitted = Ghost(self.emitted@.push(gs));
            assert(self.emitted@ =~= self.taken@ + self.queue@);
        }
    }

    /// Takes the oldest pending snapshot, if any: delivery order is
    /// emission order.
    pub fn next(&mut self) -> (r: Option<GameServer>)
        requires
            old(self).wf(),
        ensures
            final(self).wf(),
            old(self).pending().len() == 0 ==> r is None && *final(self) == *old(self),
            old(self).pending().len() > 0 ==> (r matches Some(gs) && gs == old(self).pending()[0]
                && final(self).taken@ == old(self).taken@.push(gs)
                && final(self).pending() == old(self).pending().drop_first()
                && final(self).emitted@ == old(self).emitted@
                && final(self).closed == old(self).closed),
    {
        if self.queue.len() == 0 {
            None
        } else {
            let gs = self.queue.remove(0);
            proof {
                self.taken = Ghost(self.taken@.push(gs));
                assert(self.queue@ =~= old(self).queue@.drop_first());
                assert(self.emitted@ =~= self.taken@ + self.queue@);
            }
            Some(gs)
        }
    }

    /// The server closed the stream: no more snapshots will arrive; what
    /// is still pending can still be taken.
    pub fn on_closed(&mut self)
        requires
            old(self).wf(),
        ensures
            final(self).wf(),
            *final(self) == (WatchStream { closed: true, ..*old(self) }),
    {
        self.closed = true;
    }

    /// Whether the server has closed the stream.
    pub fn is_closed(&self) -> (r: bool)
        ensures
            r == self.closed,
    {
        self.closed
    }
}

/// Watch stream ordering. Whatever the watcher has taken so far is exactly
/// the first snapshots the server emitted, one for one and in emission
/// order: no reordering, no drops, no inventions.
pub proof fn lemma_watch_in_order(w: WatchStream)
    requires
        w.wf(),
    ensures
        w.taken@.len() <= w.emitted@.len(),
        w.taken@ == w.emitted@.take(w.taken@.len() as int),
        forall|i: int| 0 <= i < w.taken@.len() ==> w.taken@[i] == w.emitted@[i],
{
    assert(w.taken@ =~= w.emitted@.take(w.taken@.len() as int));
}

} // verus!
