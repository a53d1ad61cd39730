//! Bounded, overwrite-oldest queue of serialised frame lines.
//!
//! The capture thread must never stall on a slow consumer: pushing onto a
//! full queue discards the single oldest line instead of blocking. Closing
//! the queue is idempotent and makes later pushes silent no-ops. This is
//! the queue's state; the callers serialise access to it and block around
//! `pop_line` as they see fit.

use vstd::prelude::*;

verus! {

/// How many lines the queue retains before dropping the oldest.
pub const FRAME_QUEUE_CAPACITY: usize = 100;

/// The contents of a queue after one push: a full queue loses its oldest
/// line, and the new line always enters at the back.
pub open spec fn push_model(q: Seq<String>, capacity: nat, line: String) -> Seq<String> {
    if q.len() >= capacity && q.len() > 0 {
        q.drop_first().push(line)
    } else {
        q.push(line)
    }
}

/// The contents of a queue after a sequence of pushes, oldest first.
pub open spec fn pushes_model(q: Seq<String>, capacity: nat, lines: Seq<String>) -> Seq<String>
    decreases lines.len(),
{
    if lines.len() == 0 {
        q
    } else {
        pushes_model(push_model(q, capacity, lines[0]), capacity, lines.drop_first())
    }
}

/// Bounded queue of serialised frame messages, oldest first.
pub struct FrameQueue {
    capacity: usize,
    lines: Vec<String>,
    closed: bool,
}

impl FrameQueue {
    /// The retained lines, oldest first.
    pub closed spec fn queue(&self) -> Seq<String> {
        self.lines@
    }

    /// Whether `close` has been called.
    pub closed spec fn is_closed(&self) -> bool {
        self.closed
    }

    /// The capacity the queue was created with.
    pub closed spec fn cap(&self) -> nat {
        self.capacity as nat
    }

    /// A fresh, open, empty queue.
    pub fn new(capacity: usize) -> (q: FrameQueue)
        ensures
            q.queue() == Seq::<String>::empty(),
            !q.is_closed(),
            q.cap() == capacity,
    {
        FrameQueue { capacity, lines: Vec::new(), closed: false }
    }

    /// Whether the queue has been closed.
    pub fn closed(&self) -> (r: bool)
        ensures
            r == self.is_closed(),
    {
        self.closed
    }

    /// How many lines the queue currently retains.
    pub fn len(&self) -> (r: usize)
        ensures
            r == self.queue().len(),
    {
        self.lines.len()
    }

    /// Non-blocking push. On a full queue the oldest line is discarded
    /// first; on a closed queue the line is dropped silently.
    pub fn push_line(&mut self, line: String)
        ensures
            final(self).is_closed() == old(self).is_closed(),
            final(self).cap() == old(self).cap(),
            old(self).is_closed() ==> final(self).queue() == old(self).queue(),
            !old(self).is_closed() ==> final(self).queue() == push_model(
                old(self).queue(),
                old(self).cap(),
                line,
            ),
    {
        if self.closed {
            return ;
        }
        if self.lines.len() >= self.capacity && self.lines.len() > 0 {
            self.lines.remove(0);
        }
        self.lines.push(line);
        proof {
            if old(self).queue().len() >= old(self).cap() && old(self).queue().len() > 0 {
                assert(old(self).queue().remove(0) =~= old(self).queue().drop_first());
                assert(final(self).queue() =~= push_model(
                    old(self).queue(),
                    old(self).cap(),
                    line,
                ));
            } else {
                assert(final(self).queue() =~= push_model(
                    old(self).queue(),
                    old(self).cap(),
                    line,
                ));
            }
        }
    }

    /// Takes the oldest line, or nothing when the queue is empty. A caller
    /// that wants the blocking behaviour waits and retries while the queue
    /// is empty and open.
    pub fn pop_line(&mut self) -> (r: Option<String>)
        ensures
            final(self).is_closed() == old(self).is_closed(),
            final(self).cap() == old(self).cap(),
            old(self).queue().len() == 0 ==> r is None && final(self).queue() == old(self).queue(),
            old(self).queue().len() > 0 ==> r == Some(old(self).queue()[0]) && final(self).queue()
                == old(self).queue().drop_first(),
    {
        if self.lines.len() == 0 {
            return None;
        }
        let line = self.lines.remove(0);
        proof {
            assert(final(self).queue() =~= old(self).queue().drop_first());
        }
        Some(line)
    }

    /// Marks the queue closed. Idempotent; retained lines stay readable.
    pub fn close(&mut self)
        ensures
            final(self).is_closed(),
            final(self).queue() == old(self).queue(),
            final(self).cap() == old(self).cap(),
    {
        self.closed = true;
    }
}

/// Overwrite-oldest behaviour, stated over whole push sequences: starting
/// from a queue no fuller than its capacity, after pushing `lines` the
/// queue holds exactly the newest `capacity` entries of the combined
/// stream, in order. In particular, pushing `capacity + k` lines onto an
/// empty queue leaves length `capacity` with the first `k` lines dropped.
pub proof fn lemma_pushes_keep_newest(q: Seq<String>, capacity: nat, lines: Seq<String>)
    requires
        capacity >= 1,
        q.len() <= capacity,
    ensures
        pushes_model(q, capacity, lines) =~= if q.len() + lines.len() <= capacity {
            q + lines
        } else {
            (q + lines).skip(q.len() + lines.len() - capacity)
        },
    decreases lines.len(),
{
    if lines.len() == 0 {
        assert(q + lines =~= q);
    } else {
        let q1 = push_model(q, capacity, lines[0]);
        lemma_pushes_keep_newest(q1, capacity, lines.drop_first());
        if q.len() >= capacity {
            assert(q1 =~= q.drop_first().push(lines[0]));
            assert(q1 + lines.drop_first() =~= (q + lines).skip(1));
        } else {
            assert(q1 =~= q.push(lines[0]));
            assert(q1 + lines.drop_first() =~= q + lines);
        }
    }
}

} // verus!
