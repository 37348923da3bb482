//! Single-producer/single-consumer token channel from the worker to the
//! stream adapter.
//!
//! The channel is modelled with its full delivery history: `sent` is
//! every chunk the producer ever queued, `taken` every chunk the
//! consumer has received, and the pending queue holds what is in flight.
//! The well-formedness invariant `sent == taken + pending` is what makes
//! the delivery-order guarantee a theorem: the delivered chunks are
//! always a prefix of the produced ones, and once the queue is drained
//! they are all of them, in order, with no gaps, duplicates or
//! reordering.

use vstd::prelude::*;
use vstd::assert_seqs_equal;

verus! {

/// Terminal marker the producer closes the channel with: a normal end,
/// a cooperative stop after cancellation, or an internal failure.
#[derive(Clone, Copy, PartialEq, Eq, Structural, Debug)]
pub enum Terminal {
    Done,
    Aborted,
    Failed,
}

/// One consumer pull from the channel: the next chunk in order, the
/// terminal marker once everything sent has been delivered, or nothing
/// yet while the producer is still generating.
#[derive(Debug)]
pub enum PullResult {
    Chunk(Vec<u8>),
    Closed(Terminal),
    Pending,
}

/// The byte views of a sequence of chunks.
pub open spec fn views_of(s: Seq<Vec<u8>>) -> Seq<Seq<u8>> {
    s.map_values(|v: Vec<u8>| v@)
}

/// All chunk contents of a history, concatenated in order.
pub open spec fn concat_chunks(s: Seq<Seq<u8>>) -> Seq<u8>
    decreases s.len(),
{
    if s.len() == 0 {
        Seq::empty()
    } else {
        s[0] + concat_chunks(s.skip(1))
    }
}

/// The worker-to-adapter token channel, with its delivery history.
pub struct Channel {
    /// Chunks queued by the producer and not yet pulled, oldest first.
    pub pending: Vec<Vec<u8>>,
    /// Set exactly once, when the producer closes the channel.
    pub terminal: Option<Terminal>,
    /// Every chunk the producer has sent, in production order.
    pub sent: Ghost<Seq<Seq<u8>>>,
    /// Every chunk the consumer has pulled, in receipt order.
    pub taken: Ghost<Seq<Seq<u8>>>,
}

impl Channel {
    /// What was sent is what was taken followed by what is pending:
    /// first-in-first-out, nothing lost, nothing invented.
    pub open spec fn wf(self) -> bool {
        self.sent@ == self.taken@ + views_of(self.pending@)
    }

    /// The producer has not yet closed the channel.
    pub open spec fn is_open(self) -> bool {
        self.terminal is None
    }

    /// A fresh, open, empty channel with empty history.
    pub fn new() -> (c: Channel)
        ensures
            c.wf(),
            c.is_open(),
            c.sent@ == Seq::<Seq<u8>>::empty(),
            c.taken@ == Seq::<Seq<u8>>::empty(),
            c.pending@.len() == 0,
    {
        let c = Channel {
            pending: Vec::new(),
            terminal: None,
            sent: Ghost(Seq::empty()),
            taken: Ghost(Seq::empty()),
        };
        proof {
            assert_seqs_equal!(c.sent@ == c.taken@ + views_of(c.pending@));
        }
        c
    }

    /// Producer side: queue the next chunk. Only the send history and
    /// the pending queue grow; the channel stays open.
    pub fn send(&mut self, chunk: Vec<u8>)
        requires
            old(self).wf(),
            old(self).is_open(),
        ensures
            final(self).wf(),
            final(self).is_open(),
            final(self).sent@ == old(self).sent@.push(chunk@),
            final(self).taken@ == old(self).taken@,
            final(self).pending@ == old(self).pending@.push(chunk),
    {
        self.sent = Ghost(self.sent@.push(chunk@));
        let ghost prior = self.pending@;
        self.pending.push(chunk);
        proof {
            assert_seqs_equal!(views_of(self.pending@) == views_of(prior).push(chunk@));
            assert_seqs_equal!(self.sent@ == self.taken@ + views_of(self.pending@));
        }
    }

    /// Producer side: close the channel exactly once, with the marker
    /// for a normal end, a cancellation, or a failure. Nothing queued is
    /// retracted.
    pub fn close(&mut self, t: Terminal)
        requires
            old(self).is_open(),
        ensures
            final(self).terminal == Some(t),
            final(self).sent@ == old(self).sent@,
            final(self).taken@ == old(self).taken@,
            final(self).pending@ == old(self).pending@,
            old(self).wf() ==> final(self).wf(),
    {
        self.terminal = Some(t);
    }

    /// Consumer side: one pull. While chunks are queued, the oldest one
    /// is delivered — receipt order is production order. Once the queue
    /// is empty, a closed channel yields its terminal marker and an open
    /// one yields nothing yet.
    pub fn pull(&mut self) -> (r: PullResult)
        requires
            old(self).wf(),
        ensures
            final(self).wf(),
            final(self).sent@ == old(self).sent@,
            final(self).terminal == old(self).terminal,
            old(self).pending@.len() > 0 ==> (r matches PullResult::Chunk(c)
                && c@ == old(self).pending@[0]@
                && final(self).taken@ == old(self).taken@.push(old(self).pending@[0]@)
                && final(self).pending@ == old(self).pending@.skip(1)),
            (old(self).pending@.len() == 0 && old(self).terminal is Some) ==> (r
                == PullResult::Closed(old(self).terminal->Some_0) && *final(self) == *old(self)),
            (old(self).pending@.len() == 0 && old(self).terminal is None) ==> ((r
                matches PullResult::Pending) && *final(self) == *old(self)),
    {
        if self.pending.len() > 0 {
            let ghost prior = self.pending@;
            let c = self.pending.remove(0);
            self.taken = Ghost(self.taken@.push(c@));
            proof {
                assert_seqs_equal!(views_of(self.pending@) == views_of(prior).skip(1));
                assert_seqs_equal!(self.sent@ == self.taken@ + views_of(self.pending@));
            }
            PullResult::Chunk(c)
        } else {
            match self.terminal {
                Some(t) => PullResult::Closed(t),
                None => PullResult::Pending,
            }
        }
    }

    /// Consumer side: pull until nothing more is queued, collecting the
    /// chunks. What comes out is exactly what was pending, in order; the
    /// terminal marker, if any, is reported unchanged.
    #[verifier::loop_isolation(false)]
    pub fn drain(&mut self) -> (r: (Vec<Vec<u8>>, Option<Terminal>))
        requires
            old(self).wf(),
        ensures
            final(self).wf(),
            final(self).sent@ == old(self).sent@,
            final(self).terminal == old(self).terminal,
            final(self).pending@.len() == 0,
            views_of(r.0@) == views_of(old(self).pending@),
            final(self).taken@ == old(self).taken@ + views_of(old(self).pending@),
            r.1 == old(self).terminal,
    {
        let mut out: Vec<Vec<u8>> = Vec::new();
        loop
            invariant
                self.wf(),
                self.sent@ == old(self).sent@,
                self.terminal == old(self).terminal,
                views_of(old(self).pending@) == views_of(out@) + views_of(self.pending@),
                self.taken@ == old(self).taken@ + views_of(out@),
            decreases self.pending@.len(),
        {
            if self.pending.len() == 0 {
                break ;
            }
            let ghost prior_out = out@;
            let ghost prior_pending = self.pending@;
            match self.pull() {
                PullResult::Chunk(c) => {
                    out.push(c);
                    proof {
                        assert_seqs_equal!(views_of(out@) == views_of(prior_out).push(prior_pending[0]@));
                        assert_seqs_equal!(
                            views_of(old(self).pending@)
                                == views_of(out@) + views_of(self.pending@)
                        );
                        assert_seqs_equal!(self.taken@ == old(self).taken@ + views_of(out@));
                    }
                },
                _ => {
                    proof {
                        assert(false);
                    }
                },
            }
        }
        proof {
            assert_seqs_equal!(views_of(out@) == views_of(old(self).pending@));
        }
        let t = self.terminal;
        (out, t)
    }
}

/// Delivery never runs ahead of production: the chunks taken so far are
/// exactly the first `taken.len()` chunks sent, in order.
pub proof fn lemma_delivery_is_prefix(ch: Channel)
    requires
        ch.wf(),
    ensures
        ch.taken@.len() <= ch.sent@.len(),
        ch.taken@ == ch.sent@.take(ch.taken@.len() as int),
{
    assert_seqs_equal!(ch.taken@ == ch.sent@.take(ch.taken@.len() as int));
}

/// Order preservation: once the queue is drained, the chunks delivered,
/// in receipt order, are exactly the chunks produced, in production
/// order — so their concatenation reproduces the full output with no
/// gaps, duplicates or reordering.
pub proof fn lemma_order_preserved(ch: Channel)
    requires
        ch.wf(),
        ch.pending@.len() == 0,
    ensures
        ch.taken@ == ch.sent@,
        concat_chunks(ch.taken@) == concat_chunks(ch.sent@),
{
    assert_seqs_equal!(ch.taken@ == ch.sent@);
}

} // verus!
