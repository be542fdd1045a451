//! A container that puts widgets on top of its child.

use crate::ffi::{Arg, ArgView, Call, CallView, Symbol};
use crate::glib::traits::{unref_call, Ptr};
use crate::gtk::ffi::{C_GtkWidget, FFIWidget};
use vstd::prelude::*;

verus! {

/// A handle on an overlay. It either owns the widget, when it was made from
/// what a constructor returned, or is a view of a widget that someone else
/// owns.
#[derive(Debug)]
pub struct Overlay {
    pointer: Ptr<C_GtkWidget>,
    can_drop: bool,
}

impl Overlay {
    /// Whether the handle owns the widget.
    pub closed spec fn owns(&self) -> bool {
        self.can_drop
    }

    pub fn can_drop(&self) -> (b: bool)
        ensures
            b == self.owns(),
    {
        self.can_drop
    }

    /// The handle that owns the widget which a constructor returned at
    /// `pointer`; `None` where the constructor failed and returned the null
    /// pointer.
    pub fn check_pointer(pointer: Ptr<C_GtkWidget>) -> (r: Option<Overlay>)
        ensures
            r is Some <==> pointer.addr != 0,
            r matches Some(w) ==> w.widget_addr() == pointer.addr && w.owns(),
    {
        if pointer.is_null() {
            None
        } else {
            Some(Overlay { pointer, can_drop: true })
        }
    }

    /// Ends the handle. A handle that owns its widget gives up its one
    /// reference; a view has none to give up.
    pub fn release(self) -> (call: Option<Call>)
        ensures
            call is Some <==> self.owns(),
            call matches Some(c) ==> c@ == unref_call(self.widget_addr()),
    {
        if self.can_drop {
            Some(Call::unary(Symbol::GObjectUnref, Arg::Pointer(self.pointer.addr)))
        } else {
            None
        }
    }

    /// How an overlay is made: the call of its constructor.
    pub fn new() -> (call: Call)
        ensures
            call@ == (CallView { symbol: Symbol::GtkOverlayNew, args: seq![] }),
    {
        Call::nullary(Symbol::GtkOverlayNew)
    }

    /// The call that puts `widget` on top of the child.
    pub fn add_overlay<T: FFIWidget>(&self, widget: &T) -> (call: Call)
        ensures
            call@ == (CallView {
                symbol: Symbol::GtkOverlayAddOverlay,
                args: seq![
                    ArgView::Pointer(self.widget_addr()),
                    ArgView::Pointer(widget.widget_addr()),
                ],
            }),
    {
        Call::binary(
            Symbol::GtkOverlayAddOverlay,
            Arg::Pointer(self.pointer.addr),
            Arg::Pointer(widget.get_widget().addr),
        )
    }
}

impl FFIWidget for Overlay {
    closed spec fn widget_addr(&self) -> usize {
        self.pointer.addr
    }

    fn get_widget(&self) -> (p: Ptr<C_GtkWidget>) {
        self.pointer
    }

    /// A view of the widget at `widget`: the handle does not own it.
    fn wrap(widget: Ptr<C_GtkWidget>) -> (r: Overlay)
        ensures
            !r.owns(),
    {
        Overlay { pointer: widget, can_drop: false }
    }
}

} // verus!
