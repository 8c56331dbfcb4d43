use vstd::prelude::*;

verus! {

/// How many raw scancodes the queue holds before it starts dropping new ones.
/// A tuning constant, not a correctness parameter.
pub const FIFO_CAPACITY: usize = 32;

/// Bounded first-in first-out queue of raw scancodes. It decouples scancode
/// capture from interpretation: capture appends, interpretation drains.
/// A push onto a full queue drops the new code silently.
pub struct FifoBuffer {
    items: Vec<u16>,
}

/// What one push does to the queue's contents: appends when there is room,
/// leaves the queue unchanged when it is full.
pub open spec fn spec_push(q: Seq<u16>, code: u16) -> Seq<u16> {
    if q.len() < FIFO_CAPACITY {
        q.push(code)
    } else {
        q
    }
}

/// The contents after pushing a whole sequence of codes, in order.
pub open spec fn spec_push_all(q: Seq<u16>, codes: Seq<u16>) -> Seq<u16>
    decreases codes.len(),
{
    if codes.len() == 0 {
        q
    } else {
        spec_push_all(spec_push(q, codes[0]), codes.drop_first())
    }
}

impl View for FifoBuffer {
    type V = Seq<u16>;

    closed spec fn view(&self) -> Seq<u16> {
        self.items@
    }
}

impl FifoBuffer {
    pub fn new() -> (r: FifoBuffer)
        ensures
            r@ == Seq::<u16>::empty(),
    {
        FifoBuffer { items: Vec::new() }
    }

    pub fn len(&self) -> (r: usize)
        ensures
            r == self@.len(),
    {
        self.items.len()
    }

    /// Appends `code` at the back; on a full queue the code is dropped and
    /// `false` comes back. Never blocks.
    pub fn push(&mut self, code: u16) -> (r: bool)
        ensures
            final(self)@ == spec_push(old(self)@, code),
            r == (old(self)@.len() < FIFO_CAPACITY),
    {
        if self.items.len() < FIFO_CAPACITY {
            self.items.push(code);
            true
        } else {
            false
        }
    }

    /// Removes and returns the oldest code, or `None` on an empty queue.
    pub fn pop(&mut self) -> (r: Option<u16>)
        ensures
            old(self)@.len() == 0 ==> final(self)@ == old(self)@ && r is None,
            old(self)@.len() > 0 ==> final(self)@ == old(self)@.drop_first() && r == Some(
                old(self)@[0],
            ),
    {
        if self.items.len() > 0 {
            Some(self.items.remove(0))
        } else {
            None
        }
    }
}

/// Pushing any sequence of codes into a queue with room keeps the first codes
/// that fit, in arrival order, and drops the rest: the queue ends up holding
/// the concatenation, cut off at the capacity.
pub proof fn lemma_push_all_keeps_prefix(q: Seq<u16>, codes: Seq<u16>)
    requires
        q.len() <= FIFO_CAPACITY,
    ensures
        spec_push_all(q, codes) == if q.len() + codes.len() <= FIFO_CAPACITY {
            q + codes
        } else {
            (q + codes).take(FIFO_CAPACITY as int)
        },
    decreases codes.len(),
{
    if codes.len() == 0 {
        assert(spec_push_all(q, codes) =~= q + codes);
    } else {
        let c0 = codes[0];
        let rest = codes.drop_first();
        if q.len() < FIFO_CAPACITY {
            lemma_push_all_keeps_prefix(q.push(c0), rest);
            assert(q.push(c0) + rest =~= q + codes);
            if q.len() + codes.len() > FIFO_CAPACITY {
                assert((q.push(c0) + rest).take(FIFO_CAPACITY as int) =~= (q + codes).take(
                    FIFO_CAPACITY as int,
                ));
            }
        } else {
            lemma_push_all_keeps_prefix(q, rest);
            if q.len() + rest.len() <= FIFO_CAPACITY {
                assert(q + rest =~= (q + codes).take(FIFO_CAPACITY as int));
            } else {
                assert((q + rest).take(FIFO_CAPACITY as int) =~= (q + codes).take(
                    FIFO_CAPACITY as int,
                ));
            }
        }
    }
}

/// Overfilling an empty queue keeps exactly the first `FIFO_CAPACITY` codes:
/// pushing more than the capacity leaves the earliest arrivals, in order.
pub proof fn lemma_overfill_keeps_first(codes: Seq<u16>)
    requires
        codes.len() >= FIFO_CAPACITY,
    ensures
        spec_push_all(Seq::<u16>::empty(), codes) == codes.take(FIFO_CAPACITY as int),
{
    lemma_push_all_keeps_prefix(Seq::<u16>::empty(), codes);
    if codes.len() == FIFO_CAPACITY {
        assert(Seq::<u16>::empty() + codes =~= codes.take(FIFO_CAPACITY as int));
    } else {
        assert((Seq::<u16>::empty() + codes).take(FIFO_CAPACITY as int) =~= codes.take(
            FIFO_CAPACITY as int,
        ));
    }
}

} // verus!
