//! Widgets that choose a colour.

use crate::ffi::{Arg, ArgView, Call, CallView, Symbol};
use crate::glib::traits::{AsPtr, Cast, ConstPtr, IsA};
use crate::glib::{spec_to_gboolean, to_gboolean};
use crate::gtk::ffi::C_GtkColorChooser;
use vstd::prelude::*;

verus! {

/// The operations of a colour chooser.
///
/// Every handle whose tag is related to the class has them.
pub trait ColorChooserTrait: AsPtr {
    /// The call that asks whether the chooser shows the alpha channel; it
    /// returns a truth value.
    fn get_use_alpha(&self) -> (call: Call)
        ensures
            call@ == (CallView {
                symbol: Symbol::GtkColorChooserGetUseAlpha,
                args: seq![ArgView::Pointer(self.addr())],
            }),
    ;

    /// The call that sets whether the chooser shows the alpha channel.
    fn set_use_alpha(&self, use_alpha: bool) -> (call: Call)
        ensures
            call@ == (CallView {
                symbol: Symbol::GtkColorChooserSetUseAlpha,
                args: seq![
                    ArgView::Pointer(self.addr()),
                    ArgView::Int(spec_to_gboolean(use_alpha)),
                ],
            }),
    ;
}

impl<T: AsPtr> ColorChooserTrait for T where T::Inner: IsA<C_GtkColorChooser> {
    fn get_use_alpha(&self) -> (call: Call) {
        let target: ConstPtr<C_GtkColorChooser> = self.as_ptr().cast();
        Call::unary(Symbol::GtkColorChooserGetUseAlpha, Arg::Pointer(target.addr))
    }

    fn set_use_alpha(&self, use_alpha: bool) -> (call: Call) {
        let target: ConstPtr<C_GtkColorChooser> = self.as_ptr().cast();
        Call::binary(
            Symbol::GtkColorChooserSetUseAlpha,
            Arg::Pointer(target.addr),
            Arg::Int(to_gboolean(use_alpha)),
        )
    }
}

} // verus!
