//! Widgets that lay out along one of two directions.

use crate::ffi::{Arg, ArgView, Call, CallView, Symbol};
use crate::glib::traits::{AsPtr, Cast, ConstPtr, IsA};
use crate::gtk::enums::Orientation;
use crate::gtk::ffi::C_GtkOrientable;
use vstd::prelude::*;

verus! {

/// The operations of an orientable widget.
///
/// Every handle whose tag is related to the class has them.
pub trait OrientableTrait: AsPtr {
    /// The call that asks for the orientation; it returns the value of an
    /// enumeration, which [`Orientation::from_glib`] reads.
    fn get_orientation(&self) -> (call: Call)
        ensures
            call@ == (CallView {
                symbol: Symbol::GtkOrientableGetOrientation,
                args: seq![ArgView::Pointer(self.addr())],
            }),
    ;

    /// The call that sets the orientation.
    fn set_orientation(&self, orientation: Orientation) -> (call: Call)
        ensures
            call@ == (CallView {
                symbol: Symbol::GtkOrientableSetOrientation,
                args: seq![ArgView::Pointer(self.addr()), ArgView::Int(orientation.spec_to_glib())],
            }),
    ;
}

impl<T: AsPtr> OrientableTrait for T where T::Inner: IsA<C_GtkOrientable> {
    fn get_orientation(&self) -> (call: Call) {
        let target: ConstPtr<C_GtkOrientable> = self.as_ptr().cast();
        Call::unary(Symbol::GtkOrientableGetOrientation, Arg::Pointer(target.addr))
    }

    fn set_orientation(&self, orientation: Orientation) -> (call: Call) {
        let target: ConstPtr<C_GtkOrientable> = self.as_ptr().cast();
        Call::binary(
            Symbol::GtkOrientableSetOrientation,
            Arg::Pointer(target.addr),
            Arg::Int(orientation.to_glib()),
        )
    }
}

} // verus!
