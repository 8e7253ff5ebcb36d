//! One-shot channels through which acknowledgements and send slots reach the
//! futures that wait for them.
//!
//! The channels are those of `ntex_util::channel::pool`. Nothing in this
//! module is proved: each contract states what the channel's source shows.
use vstd::prelude::*;

use ntex_util::channel::pool::{Pool, Receiver, Sender};
use ntex_util::channel::Canceled;

verus! {

/// `ntex_util::channel::pool::Pool`: a pool of one-shot channels.
#[verifier::external_type_specification]
#[verifier::external_body]
#[verifier::reject_recursive_types(T)]
pub struct ExPool<T>(Pool<T>);

/// `ntex_util::channel::pool::Sender`: the sending half of a one-shot
/// channel. Dropping it without sending ends the channel.
#[verifier::external_type_specification]
#[verifier::external_body]
#[verifier::reject_recursive_types(T)]
pub struct ExSender<T>(Sender<T>);

/// `ntex_util::channel::pool::Receiver`: the receiving half of a one-shot
/// channel, a future of what is sent.
#[verifier::external_type_specification]
#[verifier::external_body]
#[verifier::reject_recursive_types(T)]
pub struct ExReceiver<T>(Receiver<T>);

/// `ntex_util::channel::Canceled`: what a receiver gets when its sender was
/// dropped. It is declared because `Receiver` is a future of it.
#[verifier::external_type_specification]
#[verifier::external_body]
pub struct ExCanceled(Canceled);

/// `ntex_util::channel::pool::new`: a pool with no channel in it. Nothing is
/// claimed of the pool.
#[verifier::external_body]
pub(crate) fn pool<T>() -> Pool<T> {
    ntex_util::channel::pool::new()
}

/// `Pool::channel`: a new one-shot channel, as its two halves. Nothing is
/// claimed of them.
#[verifier::external_body]
pub(crate) fn channel<T>(pool: &Pool<T>) -> (Sender<T>, Receiver<T>) {
    pool.channel()
}

/// `Sender::send`: hands `value` to the receiving half and tells whether that
/// half still existed to take it. Which of the two happens depends on the
/// receiver alone, so nothing is claimed of the result.
#[verifier::external_body]
pub(crate) fn send<T>(tx: Sender<T>, value: T) -> bool {
    tx.send(value).is_ok()
}

} // verus!
