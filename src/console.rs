use vstd::prelude::*;
use std::collections::VecDeque;

verus! {

/// What one tick takes from the pending console bytes: the oldest one, if any.
pub open spec fn first_pending(q: Seq<u8>) -> Option<u8> {
    if q.len() > 0 {
        Some(q[0])
    } else {
        None
    }
}

/// What is left pending after one tick.
pub open spec fn rest_pending(q: Seq<u8>) -> Seq<u8> {
    if q.len() > 0 {
        q.drop_first()
    } else {
        q
    }
}

/// The bytes that `n` successive ticks deliver from the pending bytes `q`.
pub open spec fn delivered(q: Seq<u8>, n: nat) -> Seq<u8>
    decreases n,
{
    if n == 0 {
        Seq::empty()
    } else {
        match first_pending(q) {
            Some(b) => seq![b] + delivered(rest_pending(q), (n - 1) as nat),
            None => Seq::empty(),
        }
    }
}

/// Console bytes received from the host and not yet handed to the device.
pub struct ConsoleQueue {
    pending: VecDeque<u8>,
}

impl View for ConsoleQueue {
    type V = Seq<u8>;

    closed spec fn view(&self) -> Seq<u8> {
        self.pending@
    }
}

impl ConsoleQueue {
    pub fn new() -> (r: ConsoleQueue)
        ensures
            r@ == Seq::<u8>::empty(),
    {
        ConsoleQueue { pending: VecDeque::new() }
    }

    pub fn len(&self) -> (r: usize)
        ensures
            r == self@.len(),
    {
        self.pending.len()
    }

    /// Appends a byte received from the host.
    pub fn push(&mut self, b: u8)
        ensures
            final(self)@ == old(self)@.push(b),
    {
        self.pending.push_back(b);
    }

    /// Takes the oldest pending byte, if any.
    pub fn take(&mut self) -> (r: Option<u8>)
        ensures
            r == first_pending(old(self)@),
            final(self)@ == rest_pending(old(self)@),
    {
        let r = self.pending.pop_front();
        proof {
            if old(self)@.len() > 0 {
                assert(old(self)@.drop_first() =~= old(self)@.subrange(1, old(self)@.len() as int));
            }
        }
        r
    }
}

/// Console bytes reach the device in the order they were received, one per
/// tick, none repeated and none skipped: `n` ticks deliver the first `n`
/// pending bytes (all of them, if fewer are pending).
pub proof fn lemma_console_in_order(q: Seq<u8>, n: nat)
    ensures
        delivered(q, n) == q.take(if n <= q.len() { n as int } else { q.len() as int }),
    decreases n,
{
    if n > 0 && q.len() > 0 {
        lemma_console_in_order(q.drop_first(), (n - 1) as nat);
        let k: int = if n <= q.len() { n as int } else { q.len() as int };
        assert(seq![q[0]] + q.drop_first().take(k - 1) =~= q.take(k));
    } else if n > 0 {
        assert(q.take(0) =~= Seq::<u8>::empty());
    } else {
        assert(q.take(0) =~= Seq::<u8>::empty());
    }
}

} // verus!
