//! The channels of the standard library, as far as the hub uses them.
//!
//! Whether a value arrives depends on the other end, and nothing is claimed
//! of it. What is claimed is that a value that could not be sent comes back.

use vstd::prelude::*;
use std::sync::mpsc::{Receiver, Sender};

verus! {

/// `std::sync::mpsc::Sender`, the sending half of a channel.
#[verifier::external_type_specification]
#[verifier::external_body]
#[verifier::reject_recursive_types(T)]
pub struct ExSender<T>(Sender<T>);

/// `std::sync::mpsc::Receiver`, the receiving half of a channel.
#[verifier::external_type_specification]
#[verifier::external_body]
#[verifier::reject_recursive_types(T)]
pub struct ExReceiver<T>(Receiver<T>);

/// `std::sync::mpsc::channel` makes a new channel and returns its two
/// halves. Nothing is claimed of them.
pub assume_specification<T>[ std::sync::mpsc::channel::<T> ]() -> (ends: (Sender<T>, Receiver<T>))
;

/// `Sender::send` never blocks and never panics. It fails only when the
/// receiving half has been dropped, and its error then holds the very value
/// that was to be sent. Nothing is claimed of when it succeeds.
#[verifier::external_body]
pub(crate) fn send_or_return<T>(tx: &Sender<T>, t: T) -> (sent: Result<(), T>)
    ensures
        sent matches Err(back) ==> back == t,
{
    match tx.send(t) {
        Ok(()) => Ok(()),
        Err(e) => Err(e.0),
    }
}

} // verus!
