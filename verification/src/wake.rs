//! The task-wakeup primitive that carries a completion across threads.

use futures::task::AtomicWaker;
use std::task::Waker;
use vstd::prelude::*;

verus! {

/// `std::task::Waker`, the handle by which a task is woken. Nothing is said
/// of what it holds.
#[verifier::external_type_specification]
#[verifier::external_body]
pub struct ExWaker(Waker);

/// `futures::task::AtomicWaker`, a cell that holds the waker of the task to
/// wake and can be shared between threads. Nothing is said of what it holds.
#[verifier::external_type_specification]
#[verifier::external_body]
pub struct ExAtomicWaker(AtomicWaker);

/// `AtomicWaker::new` makes a cell with no waker in it. Nothing is claimed of
/// the result.
pub assume_specification[ AtomicWaker::new ]() -> AtomicWaker;

/// `AtomicWaker::register` stores a clone of the waker for the next call of
/// `wake`. Nothing is claimed of its effect.
pub assume_specification[ AtomicWaker::register ](cell: &AtomicWaker, waker: &Waker);

/// `AtomicWaker::wake` wakes the task whose waker was registered last, if
/// there is one. Nothing is claimed of its effect.
pub assume_specification[ AtomicWaker::wake ](cell: &AtomicWaker);

} // verus!
