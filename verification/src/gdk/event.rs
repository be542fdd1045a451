//! Events that the windowing layer delivers to signal handlers.

use crate::glib::traits::Ptr;
use vstd::prelude::*;

verus! {

/// The tag of an event record.
#[derive(Debug)]
pub struct C_GdkEvent;

/// A view of an event record that the foreign side lends to a handler for
/// the time of one call.
#[derive(Debug)]
pub struct Event {
    pointer: Ptr<C_GdkEvent>,
}

impl Event {
    #[verifier::type_invariant]
    spec fn not_null(&self) -> bool {
        self.pointer.addr != 0
    }

    /// The address of the record.
    pub closed spec fn addr(&self) -> usize {
        self.pointer.addr
    }

    /// A view of the record at `pointer`, which must not be null.
    pub fn wrap(pointer: Ptr<C_GdkEvent>) -> (event: Event)
        requires
            pointer.addr != 0,
        ensures
            event.addr() == pointer.addr,
    {
        Event { pointer }
    }

    /// The address of the record, which is never null.
    pub fn unwrap(&self) -> (pointer: Ptr<C_GdkEvent>)
        ensures
            pointer.addr == self.addr(),
            pointer.addr != 0,
    {
        proof {
            use_type_invariant(self);
        }
        self.pointer
    }
}

} // verus!
