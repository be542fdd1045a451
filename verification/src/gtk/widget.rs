//! What every widget can do.

use crate::ffi::{Arg, ArgView, Call, CallView, Symbol};
use crate::glib::traits::{AsPtr, Cast, ConstPtr, IsA};
use crate::gtk::ffi::C_GtkWidget;
use vstd::prelude::*;

verus! {

/// The operations of a widget. Every handle whose tag is related to the
/// widget class has them.
pub trait WidgetTrait: AsPtr {
    /// The call that asks for the widget and everything in it to be shown.
    /// It may be made at any time after construction, and again.
    fn show_all(&self) -> (call: Call)
        ensures
            call@ == (CallView {
                symbol: Symbol::GtkWidgetShowAll,
                args: seq![ArgView::Pointer(self.addr())],
            }),
    ;
}

impl<T: AsPtr> WidgetTrait for T where T::Inner: IsA<C_GtkWidget> {
    fn show_all(&self) -> (call: Call) {
        let widget: ConstPtr<C_GtkWidget> = self.as_ptr().cast();
        Call::unary(Symbol::GtkWidgetShowAll, Arg::Pointer(widget.addr))
    }
}

} // verus!
