//! The sync/async bridge's rendezvous: the asynchronous operation sends its
//! result over a private bounded one-shot channel, and the blocking caller
//! waits on the other end — with a timeout for a connection attempt, without
//! one otherwise — and classifies how the wait ended.
//!
//! The waiting side stands here; scheduling the asynchronous task and
//! sending its result belong to the runtime around the engine.

use vstd::prelude::*;

use crate::error::{ApiError, ChannelError};

verus! {

#[verifier::external_type_specification]
#[verifier::external_body]
#[verifier::reject_recursive_types(T)]
pub struct ExReceiver<T>(crossbeam_channel::Receiver<T>);

/// What a blocking call's rendezvous channel carries: the asynchronous
/// operation's own result.
pub type Reply = Result<String, ApiError>;

/// How one wait on the rendezvous channel ended.
pub enum RecvOutcome {
    /// The asynchronous task sent its result in time.
    Received(Reply),
    /// Nothing arrived within the allowed time.
    TimedOut,
    /// Every sender is gone and nothing will arrive.
    Disconnected,
}

/// Relies on crossbeam_channel::Receiver::recv_timeout: a message if one
/// arrives within the timeout, a timeout otherwise, or the disconnection
/// when every sender is gone and the channel is empty. Which of these
/// happens depends on timing, so nothing more is promised.
#[verifier::external_body]
fn recv_reply_timeout(rx: &crossbeam_channel::Receiver<Reply>, timeout_secs: u64) -> (r:
    RecvOutcome) {
    match rx.recv_timeout(std::time::Duration::from_secs(timeout_secs)) {
        Ok(reply) => RecvOutcome::Received(reply),
        Err(crossbeam_channel::RecvTimeoutError::Timeout) => RecvOutcome::TimedOut,
        Err(crossbeam_channel::RecvTimeoutError::Disconnected) => RecvOutcome::Disconnected,
    }
}

/// Relies on crossbeam_channel::Receiver::recv: blocks until a message
/// arrives or every sender is gone; it never times out.
#[verifier::external_body]
fn recv_reply(rx: &crossbeam_channel::Receiver<Reply>) -> (r: RecvOutcome)
    ensures
        r !is TimedOut,
{
    match rx.recv() {
        Ok(reply) => RecvOutcome::Received(reply),
        Err(_) => RecvOutcome::Disconnected,
    }
}

/// How a blocking wait settles: a received reply passes through unchanged;
/// a wait that ended any other way is a rendezvous failure of its own kind.
pub open spec fn spec_settle_reply(outcome: RecvOutcome) -> Reply {
    match outcome {
        RecvOutcome::Received(reply) => reply,
        RecvOutcome::TimedOut => Err(ApiError::CrossbeamError(ChannelError::Timeout)),
        RecvOutcome::Disconnected => Err(ApiError::CrossbeamError(ChannelError::Disconnected)),
    }
}

/// Settles one wait on the rendezvous channel.
pub fn settle_reply(outcome: RecvOutcome) -> (r: Reply)
    ensures
        r == spec_settle_reply(outcome),
{
    match outcome {
        RecvOutcome::Received(reply) => reply,
        RecvOutcome::TimedOut => Err(ApiError::CrossbeamError(ChannelError::Timeout)),
        RecvOutcome::Disconnected => Err(ApiError::CrossbeamError(ChannelError::Disconnected)),
    }
}

/// Blocks on the rendezvous channel up to the timeout: the task's own
/// result if it arrives in time, the timeout failure if nothing does, and
/// the disconnection failure if the task terminated without sending.
pub fn wait_for_reply(rx: &crossbeam_channel::Receiver<Reply>, timeout_secs: u64) -> (r: Reply)
    ensures
        exists|o: RecvOutcome| r == spec_settle_reply(o),
{
    let outcome = recv_reply_timeout(rx, timeout_secs);
    let ghost o = outcome;
    let r = settle_reply(outcome);
    proof {
        assert(r == spec_settle_reply(o));
    }
    r
}

/// Blocks on the rendezvous channel with no time limit: the task's own
/// result, or the disconnection failure if the task terminated without
/// sending; the wait itself never times out.
pub fn wait_for_reply_indefinitely(rx: &crossbeam_channel::Receiver<Reply>) -> (r: Reply)
    ensures
        exists|o: RecvOutcome| o !is TimedOut && r == spec_settle_reply(o),
{
    let outcome = recv_reply(rx);
    let ghost o = outcome;
    let r = settle_reply(outcome);
    proof {
        assert(o !is TimedOut && r == spec_settle_reply(o));
    }
    r
}

} // verus!
