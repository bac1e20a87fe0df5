//! The outside types that the bridge carries and the calls into outside
//! crates that it makes: the clock, fresh identifiers, wakeups and reply
//! slots. None of these is proved; each says what is taken on trust.

use crate::types::BridgeToolResponse;
use std::sync::Arc;
use vstd::prelude::*;

verus! {

/// `tokio::sync::Notify`, the wakeup of a client. Its inside is not
/// modelled.
#[verifier::external_type_specification]
#[verifier::external_body]
pub struct ExNotify(tokio::sync::Notify);

/// `tokio::sync::oneshot::Sender`, the sending half of a reply slot. Its
/// inside is not modelled.
#[verifier::external_type_specification]
#[verifier::external_body]
#[verifier::reject_recursive_types(T)]
pub struct ExSender<T>(tokio::sync::oneshot::Sender<T>);

/// `tokio::sync::oneshot::error::RecvError`, what a receiver yields once
/// its sender is gone.
#[verifier::external_type_specification]
#[verifier::external_body]
pub struct ExRecvError(tokio::sync::oneshot::error::RecvError);

/// `tokio::sync::oneshot::Receiver`, the receiving half of a reply slot.
/// Its inside is not modelled.
#[verifier::external_type_specification]
#[verifier::external_body]
#[verifier::reject_recursive_types(T)]
pub struct ExReceiver<T>(tokio::sync::oneshot::Receiver<T>);

/// `std::path::PathBuf`, carried through as it is.
#[verifier::external_type_specification]
#[verifier::external_body]
pub struct ExPathBuf(std::path::PathBuf);

/// `Clone::clone` of a `PathBuf`: the copy is the same path.
pub assume_specification[ <std::path::PathBuf as Clone>::clone ](
    p: &std::path::PathBuf,
) -> (r: std::path::PathBuf)
    ensures
        r == *p,
;

/// `chrono::Utc::now` followed by `DateTime::timestamp_millis`: the current
/// time in milliseconds since the Unix epoch. Nothing is promised of the
/// value, which the system clock decides. `Utc::now` gives up on a clock
/// that is set before the epoch; no argument could rule that out.
#[verifier::external_body]
pub(crate) fn now_millis() -> i64 {
    chrono::Utc::now().timestamp_millis()
}

/// `uuid::Uuid::new_v4` written out by `to_string`: a random identifier in
/// its hyphenated form. Nothing is promised of the value, which the
/// system's source of randomness decides.
#[verifier::external_body]
pub(crate) fn new_uuid() -> String {
    uuid::Uuid::new_v4().to_string()
}

/// `tokio::sync::Notify::new`: a wakeup without a stored permit.
pub assume_specification[ tokio::sync::Notify::new ]() -> (n: tokio::sync::Notify)
;

/// `tokio::sync::Notify::notify_one`: wakes one waiter, or stores a permit
/// for the next one. The effect is outside of what is modelled here.
pub assume_specification[ tokio::sync::Notify::notify_one ](n: &tokio::sync::Notify)
;

/// `Arc::clone` on a wakeup: another handle to the same wakeup.
#[verifier::external_body]
pub(crate) fn share_wake(wake: &Arc<tokio::sync::Notify>) -> (r: Arc<tokio::sync::Notify>)
    ensures
        r == *wake,
{
    wake.clone()
}

/// `tokio::sync::oneshot::Sender::send`: hands the response to the
/// receiving half. The result tells whether the receiver was still there,
/// which depends on the other task.
#[verifier::external_body]
pub(crate) fn deliver(
    slot: tokio::sync::oneshot::Sender<BridgeToolResponse>,
    response: BridgeToolResponse,
) -> bool {
    slot.send(response).is_ok()
}

/// `tokio::sync::oneshot::channel`: the two halves of a fresh one-shot
/// channel. Nothing is promised of them here.
#[verifier::external_body]
pub(crate) fn reply_channel() -> (
    tokio::sync::oneshot::Sender<BridgeToolResponse>,
    tokio::sync::oneshot::Receiver<BridgeToolResponse>,
) {
    tokio::sync::oneshot::channel()
}

} // verus!
