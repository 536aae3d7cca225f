//! Sample Channel: the single-producer/single-consumer FIFO hand-off between
//! the capture callback and the sender loop. A push appends and never fails,
//! whatever the queue already holds, so the producer is never blocked by a
//! slow consumer; a pop takes the oldest buffer, reports `Pending` while the
//! queue is empty but the producer is still attached (the point at which a
//! live consumer waits), and `Closed` once the producer is gone and the queue
//! has drained.

use vstd::prelude::*;

verus! {

/// What one pop yields.
#[derive(Debug)]
pub enum PopOutcome {
    /// The oldest queued buffer.
    Received(Vec<u32>),
    /// Queue empty, producer still attached: the consumer would wait.
    Pending,
    /// Queue empty and the producer side has been torn down.
    Closed,
}

pub struct SampleChannel {
    queue: Vec<Vec<u32>>,
    closed: bool,
}

impl SampleChannel {
    /// The queued buffers, oldest first.
    pub closed spec fn buffers(self) -> Seq<Seq<u32>> {
        self.queue@.map_values(|b: Vec<u32>| b@)
    }

    /// Whether the producer side has been torn down.
    pub closed spec fn is_closed(self) -> bool {
        self.closed
    }

    pub fn new() -> (c: SampleChannel)
        ensures
            c.buffers() == Seq::<Seq<u32>>::empty(),
            !c.is_closed(),
    {
        let c = SampleChannel { queue: Vec::new(), closed: false };
        proof {
            assert(c.buffers() =~= Seq::<Seq<u32>>::empty());
        }
        c
    }

    /// Enqueues one capture buffer. Total: it succeeds on every queue,
    /// however long, so the producer is never blocked or throttled.
    pub fn push(&mut self, buffer: Vec<u32>)
        requires
            !old(self).is_closed(),
        ensures
            final(self).buffers() == old(self).buffers().push(buffer@),
            !final(self).is_closed(),
    {
        self.queue.push(buffer);
        proof {
            assert(self.buffers() =~= old(self).buffers().push(buffer@));
        }
    }

    /// Tears down the producer side; the buffers already queued stay.
    pub fn close(&mut self)
        ensures
            final(self).buffers() == old(self).buffers(),
            final(self).is_closed(),
    {
        self.closed = true;
    }

    /// Dequeues the oldest buffer, if any; FIFO order.
    pub fn pop(&mut self) -> (r: PopOutcome)
        ensures
            final(self).is_closed() == old(self).is_closed(),
            match r {
                PopOutcome::Received(b) => {
                    &&& old(self).buffers().len() > 0
                    &&& b@ == old(self).buffers().first()
                    &&& final(self).buffers() == old(self).buffers().drop_first()
                },
                PopOutcome::Pending => {
                    &&& old(self).buffers().len() == 0
                    &&& !old(self).is_closed()
                    &&& final(self).buffers() == old(self).buffers()
                },
                PopOutcome::Closed => {
                    &&& old(self).buffers().len() == 0
                    &&& old(self).is_closed()
                    &&& final(self).buffers() == old(self).buffers()
                },
            },
    {
        if self.queue.len() == 0 {
            if self.closed {
                PopOutcome::Closed
            } else {
                PopOutcome::Pending
            }
        } else {
            let b = self.queue.remove(0);
            proof {
                assert(self.buffers() =~= old(self).buffers().drop_first());
            }
            PopOutcome::Received(b)
        }
    }

    /// How many buffers are queued.
    pub fn len(&self) -> (n: usize)
        ensures
            n == self.buffers().len(),
    {
        self.queue.len()
    }
}

/// The queue contents after buffers are pushed one by one, in order, onto a
/// queue already holding `init`: the model of a producer that enqueues
/// `bufs[0]`, then `bufs[1]`, and so on.
pub open spec fn pushed_all(init: Seq<Seq<u32>>, bufs: Seq<Seq<u32>>) -> Seq<Seq<u32>>
    decreases bufs.len(),
{
    if bufs.len() == 0 {
        init
    } else {
        pushed_all(init.push(bufs.first()), bufs.drop_first())
    }
}

/// Backpressure law: pushes only ever append. A producer that enqueues any
/// number of buffers finds them all in the queue, after whatever was already
/// there — no push is refused or blocked, and the queue grows without bound
/// when nothing pops.
pub proof fn lemma_pushes_always_land(init: Seq<Seq<u32>>, bufs: Seq<Seq<u32>>)
    ensures
        pushed_all(init, bufs) == init + bufs,
        pushed_all(init, bufs).len() == init.len() + bufs.len(),
    decreases bufs.len(),
{
    if bufs.len() == 0 {
        assert(pushed_all(init, bufs) =~= init + bufs);
    } else {
        lemma_pushes_always_land(init.push(bufs.first()), bufs.drop_first());
        assert(init.push(bufs.first()) + bufs.drop_first() =~= init + bufs);
    }
}

/// FIFO law: buffers pushed in order B1..Bk onto an empty channel come back
/// in that same order, exactly k times, and then the channel reports Closed.
/// In the terms of `push` and `pop`: after the k pushes the queue holds
/// exactly `bufs` (first clause); a pop on a queue holding `s` returns
/// `s.first()` and leaves `s.drop_first()`, so after j pops the queue holds
/// `bufs.skip(j)` (third clause) and the j-th pop returned `bufs[j]` (second
/// clause); and once j reaches k the queue is empty (fourth clause), where
/// pop on a closed channel returns Closed and changes nothing.
pub proof fn lemma_fifo_order(bufs: Seq<Seq<u32>>, j: int)
    requires
        0 <= j < bufs.len(),
    ensures
        pushed_all(Seq::<Seq<u32>>::empty(), bufs) == bufs,
        bufs.skip(j).first() == bufs[j],
        bufs.skip(j).drop_first() == bufs.skip(j + 1),
        bufs.skip(bufs.len() as int).len() == 0,
{
    lemma_pushes_always_land(Seq::<Seq<u32>>::empty(), bufs);
    assert(Seq::<Seq<u32>>::empty() + bufs =~= bufs);
    assert(bufs.skip(j).drop_first() =~= bufs.skip(j + 1));
}

} // verus!
