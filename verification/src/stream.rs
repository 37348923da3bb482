//! The abortable stream adapter: from channel items to response chunks.
//!
//! The adapter wraps the consuming end of the token channel together
//! with the request's cancellation signal. Each poll delivers the next
//! chunk in order, waits while the worker is still generating, and ends
//! the response once the channel is closed — reporting a transport-level
//! failure, never a clean empty success, when the worker closed with the
//! error marker. On early termination (the consumer disconnected, or the
//! poll itself was cancelled) the adapter sets the cancellation signal;
//! the caller must then join the worker before finishing teardown, so
//! that the worker has observed the cancellation and its pool slot is
//! released before the response is gone.

use crate::channel::{Channel, PullResult, Terminal};
use vstd::prelude::*;

verus! {

/// Cooperative cancellation signal of one request: a flag, initially
/// unset, set at most once by consumer-side disconnection or explicit
/// abort, observed by the worker between generation steps, and never
/// reset once set — no method of this type makes it false again.
pub struct CancellationSignal {
    pub fired: bool,
}

impl CancellationSignal {
    /// The signal has been set.
    pub open spec fn is_fired(self) -> bool {
        self.fired
    }

    /// A fresh, unset signal, built once per request.
    pub fn new() -> (s: Self)
        ensures
            !s.is_fired(),
    {
        CancellationSignal { fired: false }
    }

    /// Set the signal. Setting it again changes nothing; it never goes
    /// back to unset.
    pub fn fire(&mut self)
        ensures
            final(self).is_fired(),
    {
        self.fired = true;
    }

    /// Observe the signal, as the worker does between generation steps.
    pub fn query(&self) -> (b: bool)
        ensures
            b == self.is_fired(),
    {
        self.fired
    }
}

/// One poll outcome handed to the HTTP layer's chunked-body protocol.
#[derive(Debug)]
pub enum StreamItem {
    /// The next chunk of generated output, in production order.
    Bytes(Vec<u8>),
    /// The stream is over after a normal end or a cooperative abort.
    EndOfStream,
    /// The worker closed the channel with the error marker: the response
    /// ends reporting a transport-level failure, not a clean success.
    TransportError,
    /// Nothing queued yet and the channel still open: poll again later.
    NotReady,
}

/// Adapter state: the consuming end of the token channel and the
/// request's cancellation signal.
pub struct AbortableStream {
    pub channel: Channel,
    pub signal: CancellationSignal,
}

impl AbortableStream {
    pub open spec fn wf(self) -> bool {
        self.channel.wf()
    }

    /// Wrap a channel and a signal into the response-body adapter.
    pub fn new(channel: Channel, signal: CancellationSignal) -> (s: Self)
        ensures
            s.channel == channel,
            s.signal == signal,
    {
        AbortableStream { channel, signal }
    }

    /// One pull of the streamed body: the oldest queued chunk, the end
    /// of the stream, a transport-level failure for an error-terminated
    /// channel, or nothing yet. True streaming: one chunk per poll, no
    /// buffering of the whole output.
    pub fn poll_next(&mut self) -> (r: StreamItem)
        requires
            old(self).wf(),
        ensures
            final(self).wf(),
            final(self).signal == old(self).signal,
            final(self).channel.sent@ == old(self).channel.sent@,
            final(self).channel.terminal == old(self).channel.terminal,
            old(self).channel.pending@.len() > 0 ==> (r matches StreamItem::Bytes(c)
                && c@ == old(self).channel.pending@[0]@
                && final(self).channel.taken@
                    == old(self).channel.taken@.push(old(self).channel.pending@[0]@)
                && final(self).channel.pending@ == old(self).channel.pending@.skip(1)),
            old(self).channel.pending@.len() == 0 ==> *final(self) == *old(self),
            (old(self).channel.pending@.len() == 0 && (old(self).channel.terminal
                == Some(Terminal::Done) || old(self).channel.terminal == Some(Terminal::Aborted)))
                ==> r is EndOfStream,
            (old(self).channel.pending@.len() == 0 && old(self).channel.terminal
                == Some(Terminal::Failed)) ==> r is TransportError,
            (old(self).channel.pending@.len() == 0 && old(self).channel.terminal is None) ==> r
                is NotReady,
    {
        match self.channel.pull() {
            PullResult::Chunk(c) => StreamItem::Bytes(c),
            PullResult::Closed(t) => match t {
                Terminal::Failed => StreamItem::TransportError,
                _ => StreamItem::EndOfStream,
            },
            PullResult::Pending => StreamItem::NotReady,
        }
    }

    /// Early termination of the response: set the cancellation signal.
    /// The channel is untouched — already-queued output is not retracted
    /// — and the caller must join the worker before finishing teardown.
    pub fn terminate_early(&mut self)
        ensures
            final(self).signal.is_fired(),
            final(self).channel == old(self).channel,
    {
        self.signal.fire();
    }
}

} // verus!
