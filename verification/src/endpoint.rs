//! The HTTP-facing handlers' decision logic: liveness marker, model
//! info, and the completion dispatch sequence.
//!
//! Dispatch runs in two verified steps around the one action this core
//! cannot perform itself — spawning the worker's execution unit. First
//! `begin_completion` refuses at once, with the pool untouched, when no
//! model slot is available, and otherwise checks one slot out and builds
//! the request's channel and abort flag. The caller then spawns the
//! worker and reports the outcome to `finish_completion`, which releases
//! the slot again on a spawn failure. All request-scoped errors are
//! absorbed here into a response kind; none propagate past the request.

use crate::pipe;
use crate::pool::ModelPool;
use vstd::prelude::*;
use vstd::string::StringExecFns;

verus! {

/// The completion request payload: immutable prompt text plus the
/// generation parameters handed to the generation primitive.
pub struct CompletionRequest {
    pub prompt: String,
    /// Most output increments the generation may produce.
    pub max_length: usize,
}

/// What the model-info endpoint reports.
pub struct ModelInfo {
    pub id: String,
}

/// Liveness marker of the root endpoint.
pub fn ping() -> (r: &'static str)
    ensures
        r@ == "pong"@,
{
    "pong"
}

/// The model-info endpoint's response. It reports a fixed identifier,
/// independent of whether any pool has been loaded: this function takes
/// no pool at all, so its answer cannot depend on one.
pub fn post_model() -> (r: ModelInfo)
    ensures
        r.id@ == "local.ai"@,
{
    ModelInfo { id: String::from_str("local.ai") }
}

/// The per-request plumbing built at dispatch: the two ends of the token
/// channel and the shared abort flag. The sender and the flag go to the
/// worker; the receiver, the flag and the worker handle form the
/// response stream.
pub struct StreamParts {
    pub token_sender: flume::Sender<Vec<u8>>,
    pub token_receiver: flume::Receiver<Vec<u8>>,
    pub abort_flag: parking_lot::RwLock<bool>,
}

/// Outcome of the first dispatch step.
pub enum Dispatch {
    /// No model loaded, or every slot checked out: the request is
    /// refused immediately — no queueing — and no worker is spawned.
    Unavailable,
    /// A slot was checked out and the request plumbing built; the caller
    /// spawns the worker and reports to `finish_completion`.
    Ready(usize, StreamParts),
}

impl Dispatch {
    /// The response category a refused dispatch is absorbed into at the
    /// endpoint boundary: service unavailable, both for an empty pool
    /// and for an exhausted one. A dispatch that proceeded has no
    /// refusal.
    pub fn refusal_response(&self) -> (r: Option<ResponseKind>)
        ensures
            (self is Unavailable) <==> r == Some(ResponseKind::ServiceUnavailable),
            self is Ready ==> r is None,
    {
        match self {
            Dispatch::Unavailable => Some(ResponseKind::ServiceUnavailable),
            Dispatch::Ready(_, _) => None,
        }
    }
}

/// The response category the endpoint answers with.
#[derive(Clone, Copy, PartialEq, Eq, Structural, Debug)]
pub enum ResponseKind {
    /// The streamed completion body.
    Streaming,
    /// Worker spawn failed.
    InternalError,
    /// Pool empty or exhausted.
    ServiceUnavailable,
}

impl ResponseKind {
    /// The HTTP status this category maps to.
    pub open spec fn status_spec(self) -> int {
        match self {
            ResponseKind::Streaming => 200,
            ResponseKind::InternalError => 500,
            ResponseKind::ServiceUnavailable => 503,
        }
    }

    /// The HTTP status code of the response.
    pub fn status_code(&self) -> (c: u16)
        ensures
            c as int == self.status_spec(),
    {
        match self {
            ResponseKind::Streaming => 200,
            ResponseKind::InternalError => 500,
            ResponseKind::ServiceUnavailable => 503,
        }
    }
}

/// First dispatch step. With an empty pool, or with every slot checked
/// out, the request is refused at once with the pool untouched and
/// nothing spawned. Otherwise exactly one free slot is checked out and
/// the request's channel and abort flag are created.
pub fn begin_completion(pool: &mut ModelPool) -> (r: Dispatch)
    ensures
        final(pool).capacity() == old(pool).capacity(),
        (r is Unavailable) <==> !old(pool).has_free(),
        r is Unavailable ==> *final(pool) == *old(pool),
        r matches Dispatch::Ready(slot, _) ==> slot < old(pool).capacity() && old(pool).slot_free(
            slot as int,
        ) && !final(pool).slot_free(slot as int) && final(pool).slots@ == old(pool).slots@.update(
            slot as int,
            false,
        ) && (forall|j: int| 0 <= j < slot ==> !old(pool).slot_free(j)) && final(pool).free_count()
            == old(pool).free_count() - 1,
{
    if pool.is_empty() {
        return Dispatch::Unavailable;
    }
    match pool.try_checkout() {
        None => Dispatch::Unavailable,
        Some(slot) => {
            let (token_sender, token_receiver) = pipe::new_token_channel();
            let abort_flag = pipe::new_abort_flag();
            Dispatch::Ready(slot, StreamParts { token_sender, token_receiver, abort_flag })
        },
    }
}

/// Second dispatch step, after the caller tried to spawn the worker for
/// the checked-out slot. A successful spawn answers with the streamed
/// body and the slot stays checked out until the worker terminates; a
/// spawn failure releases the slot — it cannot leak — and answers with
/// an internal error.
pub fn finish_completion(pool: &mut ModelPool, slot: usize, spawned: bool) -> (r: ResponseKind)
    requires
        slot < old(pool).capacity(),
        !old(pool).slot_free(slot as int),
    ensures
        final(pool).capacity() == old(pool).capacity(),
        spawned ==> *final(pool) == *old(pool) && r == ResponseKind::Streaming,
        !spawned ==> final(pool).slots@ == old(pool).slots@.update(slot as int, true)
            && final(pool).slot_free(slot as int) && final(pool).has_free()
            && r == ResponseKind::InternalError,
{
    if spawned {
        ResponseKind::Streaming
    } else {
        pool.release(slot);
        ResponseKind::InternalError
    }
}

} // verus!
