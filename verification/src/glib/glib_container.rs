//! Host values that are nothing but a foreign address.

use vstd::prelude::*;

verus! {

/// A host value made from an address and read back as that address.
pub trait GlibContainer<T>: Sized {
    /// The address that the value holds.
    spec fn held(&self) -> T;

    fn wrap(pointer: T) -> (r: Self)
        ensures
            r.held() == pointer,
    ;

    fn unwrap(&self) -> (pointer: T)
        ensures
            pointer == self.held(),
    ;
}

} // verus!
