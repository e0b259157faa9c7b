//! Visitor interfaces for callers that want to watch forwarded messages.
//!
//! The engine's caller supplies a visitor that is invoked once per message
//! actually forwarded to the destination; calls are strictly sequential, so
//! an implementation need not be reentrant.

use vstd::prelude::*;

verus! {

/// Something that wants to see each forwarded value.
pub trait IVisitor<T> {
    fn visit(&self, o: &T);
}

/// Something that keeps visitors and notifies them.
pub trait ISubject<'a, O, T: IVisitor<O>> {
    fn attach(&mut self, observer: &'a T);

    fn detach(&mut self, observer: &'a T);

    fn notify_observers(&self, o: &O);
}

} // verus!
