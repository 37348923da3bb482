//! Per-request inference worker: the decisions of the generation loop.
//!
//! The generation primitive itself is an external collaborator; each
//! turn of the loop it yields an event — the next output increment, a
//! normal end, or an internal failure. The worker queues each increment
//! on the token channel and, after each increment, observes the
//! cancellation signal: once it is set, the worker stops at once without
//! producing further output (what was already sent is not retracted) and
//! closes the channel with the abort marker. A normal end closes the
//! channel with the success marker, an internal failure with the error
//! marker; the channel is closed exactly once, at the end of the run.

use crate::channel::{views_of, Channel, Terminal};
use vstd::assert_seqs_equal;
use vstd::prelude::*;

verus! {

/// What the generation primitive yielded for one step: the next output
/// increment, a normal completion, or an internal failure.
#[derive(Debug)]
pub enum GenEvent {
    Token(Vec<u8>),
    Finished,
    Failed,
}

/// One step of the worker loop. `cancelled` is the value of the
/// cancellation signal as observed for this step. The step returns
/// whether the loop continues: only after an increment with the signal
/// still unset.
pub fn worker_step(ch: &mut Channel, cancelled: bool, event: GenEvent) -> (cont: bool)
    requires
        old(ch).wf(),
        old(ch).is_open(),
    ensures
        final(ch).wf(),
        final(ch).taken@ == old(ch).taken@,
        (event matches GenEvent::Token(t) ==> final(ch).sent@ == old(ch).sent@.push(t@)
            && (cancelled ==> final(ch).terminal == Some(Terminal::Aborted))
            && (!cancelled ==> final(ch).is_open())),
        event is Finished ==> final(ch).sent@ == old(ch).sent@
            && final(ch).terminal == Some(Terminal::Done),
        event is Failed ==> final(ch).sent@ == old(ch).sent@
            && final(ch).terminal == Some(Terminal::Failed),
        cont == (event is Token && !cancelled),
{
    match event {
        GenEvent::Token(t) => {
            ch.send(t);
            if cancelled {
                ch.close(Terminal::Aborted);
                false
            } else {
                true
            }
        },
        GenEvent::Finished => {
            ch.close(Terminal::Done);
            false
        },
        GenEvent::Failed => {
            ch.close(Terminal::Failed);
            false
        },
    }
}

/// A full worker run that completes normally: every produced token is
/// queued on the channel in production order, then the channel is closed
/// with the success marker.
#[verifier::loop_isolation(false)]
pub fn run_worker(ch: &mut Channel, tokens: Vec<Vec<u8>>)
    requires
        old(ch).wf(),
        old(ch).is_open(),
    ensures
        final(ch).wf(),
        final(ch).taken@ == old(ch).taken@,
        final(ch).sent@ == old(ch).sent@ + views_of(tokens@),
        final(ch).terminal == Some(Terminal::Done),
{
    let ghost all = tokens@;
    let mut rest = tokens;
    while rest.len() > 0
        invariant
            ch.wf(),
            ch.is_open(),
            ch.taken@ == old(ch).taken@,
            rest@.len() <= all.len(),
            rest@ == all.skip(all.len() - rest@.len()),
            ch.sent@ == old(ch).sent@ + views_of(all.take(all.len() - rest@.len())),
        decreases rest@.len(),
    {
        let ghost k: int = all.len() - rest@.len();
        let t = rest.remove(0);
        proof {
            assert(t@ == all[k]@);
            assert_seqs_equal!(rest@ == all.skip(k + 1));
        }
        worker_step(ch, false, GenEvent::Token(t));
        proof {
            assert_seqs_equal!(
                old(ch).sent@ + views_of(all.take(k + 1))
                    == (old(ch).sent@ + views_of(all.take(k))).push(all[k]@)
            );
        }
    }
    proof {
        assert_seqs_equal!(all.take(all.len() as int) == all);
    }
    worker_step(ch, false, GenEvent::Finished);
}

/// A whole normally-completing exchange, end to end: for any token
/// sequence the generation produces, the chunks the consumer receives,
/// in receipt order, are exactly that sequence — no gaps, duplicates or
/// reordering — and the stream ends with the success marker.
pub fn deliver_completion(tokens: Vec<Vec<u8>>) -> (r: (Vec<Vec<u8>>, Option<Terminal>))
    ensures
        views_of(r.0@) == views_of(tokens@),
        r.1 == Some(Terminal::Done),
{
    let mut ch = Channel::new();
    run_worker(&mut ch, tokens);
    proof {
        assert_seqs_equal!(ch.sent@ == views_of(tokens@));
        assert_seqs_equal!(views_of(ch.pending@) == views_of(tokens@));
    }
    ch.drain()
}

/// A worker run that observes the cancellation signal set right after
/// producing increment `cancel_at`: the tokens up to and including that
/// increment are queued — nothing already sent is retracted, nothing
/// further is produced — and the channel is closed with the abort
/// marker.
#[verifier::loop_isolation(false)]
pub fn run_worker_cancelled(ch: &mut Channel, tokens: Vec<Vec<u8>>, cancel_at: usize)
    requires
        old(ch).wf(),
        old(ch).is_open(),
        cancel_at < tokens@.len(),
    ensures
        final(ch).wf(),
        final(ch).taken@ == old(ch).taken@,
        final(ch).sent@ == old(ch).sent@ + views_of(tokens@.take(cancel_at + 1)),
        final(ch).terminal == Some(Terminal::Aborted),
{
    let ghost all = tokens@;
    let mut rest = tokens;
    let mut i: usize = 0;
    while i < cancel_at
        invariant
            ch.wf(),
            ch.is_open(),
            ch.taken@ == old(ch).taken@,
            i <= cancel_at,
            rest@ == all.skip(i as int),
            ch.sent@ == old(ch).sent@ + views_of(all.take(i as int)),
        decreases cancel_at - i,
    {
        let t = rest.remove(0);
        proof {
            assert(t@ == all[i as int]@);
            assert_seqs_equal!(rest@ == all.skip(i + 1));
        }
        worker_step(ch, false, GenEvent::Token(t));
        proof {
            assert_seqs_equal!(
                old(ch).sent@ + views_of(all.take(i + 1))
                    == (old(ch).sent@ + views_of(all.take(i as int))).push(all[i as int]@)
            );
        }
        i = i + 1;
    }
    let t = rest.remove(0);
    proof {
        assert(t@ == all[cancel_at as int]@);
    }
    worker_step(ch, true, GenEvent::Token(t));
    proof {
        assert_seqs_equal!(
            old(ch).sent@ + views_of(all.take(cancel_at + 1))
                == (old(ch).sent@ + views_of(all.take(cancel_at as int))).push(all[cancel_at as int]@)
        );
    }
}

} // verus!
