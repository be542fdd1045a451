//! What every container of widgets can do.

use crate::ffi::{Arg, ArgView, Call, CallView, Symbol};
use crate::glib::traits::{AsPtr, Cast, ConstPtr, IsA};
use crate::gtk::ffi::{C_GtkContainer, C_GtkWidget};
use libc::c_uint;
use vstd::prelude::*;

verus! {

/// The operations of a container. Every handle whose tag is related to the
/// container class has them.
pub trait ContainerTrait: AsPtr {
    /// The call that puts `widget` into the container. The container takes
    /// the widget's floating reference, or adds a reference where none
    /// floats. The widget must not be in a container already.
    fn add<W: AsPtr>(&self, widget: &W) -> (call: Call)
        where
            W::Inner: IsA<C_GtkWidget>,
        ensures
            call@ == (CallView {
                symbol: Symbol::GtkContainerAdd,
                args: seq![ArgView::Pointer(self.addr()), ArgView::Pointer(widget.addr())],
            }),
    ;

    /// The call that takes `widget` out of the container, which gives up
    /// its reference to the widget.
    fn remove<W: AsPtr>(&self, widget: &W) -> (call: Call)
        where
            W::Inner: IsA<C_GtkWidget>,
        ensures
            call@ == (CallView {
                symbol: Symbol::GtkContainerRemove,
                args: seq![ArgView::Pointer(self.addr()), ArgView::Pointer(widget.addr())],
            }),
    ;

    /// The call that sets the width of the border around the children.
    fn set_border_width(&self, border_width: u32) -> (call: Call)
        ensures
            call@ == (CallView {
                symbol: Symbol::GtkContainerSetBorderWidth,
                args: seq![ArgView::Pointer(self.addr()), ArgView::UInt(border_width)],
            }),
    ;

    /// The call that asks for the width of the border; it returns a `guint`.
    fn get_border_width(&self) -> (call: Call)
        ensures
            call@ == (CallView {
                symbol: Symbol::GtkContainerGetBorderWidth,
                args: seq![ArgView::Pointer(self.addr())],
            }),
    ;
}

impl<T: AsPtr> ContainerTrait for T where T::Inner: IsA<C_GtkContainer> {
    fn add<W: AsPtr>(&self, widget: &W) -> (call: Call)
        where
            W::Inner: IsA<C_GtkWidget>,
    {
        let container: ConstPtr<C_GtkContainer> = self.as_ptr().cast();
        let child: ConstPtr<C_GtkWidget> = widget.as_ptr().cast();
        Call::binary(
            Symbol::GtkContainerAdd,
            Arg::Pointer(container.addr),
            Arg::Pointer(child.addr),
        )
    }

    fn remove<W: AsPtr>(&self, widget: &W) -> (call: Call)
        where
            W::Inner: IsA<C_GtkWidget>,
    {
        let container: ConstPtr<C_GtkContainer> = self.as_ptr().cast();
        let child: ConstPtr<C_GtkWidget> = widget.as_ptr().cast();
        Call::binary(
            Symbol::GtkContainerRemove,
            Arg::Pointer(container.addr),
            Arg::Pointer(child.addr),
        )
    }

    fn set_border_width(&self, border_width: u32) -> (call: Call) {
        let container: ConstPtr<C_GtkContainer> = self.as_ptr().cast();
        let width: c_uint = border_width;
        Call::binary(
            Symbol::GtkContainerSetBorderWidth,
            Arg::Pointer(container.addr),
            Arg::UInt(width),
        )
    }

    fn get_border_width(&self) -> (call: Call) {
        let container: ConstPtr<C_GtkContainer> = self.as_ptr().cast();
        Call::unary(Symbol::GtkContainerGetBorderWidth, Arg::Pointer(container.addr))
    }
}

} // verus!
