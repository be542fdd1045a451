//! A frame that keeps its child at a set ratio of width to height.

use crate::ffi::{Arg, Call, Symbol};
use crate::glib::traits::{unref_call, Ptr};
use crate::gtk::ffi::{C_GtkWidget, FFIWidget};
use vstd::prelude::*;

verus! {

/// A handle on an aspect frame. It either owns the widget, when it was made
/// from what a constructor returned, or is a view of a widget that someone else
/// owns.
#[derive(Debug)]
pub struct AspectFrame {
    pointer: Ptr<C_GtkWidget>,
    can_drop: bool,
}

impl AspectFrame {
    /// Whether the handle owns the widget.
    pub closed spec fn owns(&self) -> bool {
        self.can_drop
    }

    pub fn can_drop(&self) -> (b: bool)
        ensures
            b == self.owns(),
    {
        self.can_drop
    }

    /// The handle that owns the widget which a constructor returned at
    /// `pointer`; `None` where the constructor failed and returned the null
    /// pointer.
    pub fn check_pointer(pointer: Ptr<C_GtkWidget>) -> (r: Option<AspectFrame>)
        ensures
            r is Some <==> pointer.addr != 0,
            r matches Some(w) ==> w.widget_addr() == pointer.addr && w.owns(),
    {
        if pointer.is_null() {
            None
        } else {
            Some(AspectFrame { pointer, can_drop: true })
        }
    }

    /// Ends the handle. A handle that owns its widget gives up its one
    /// reference; a view has none to give up.
    pub fn release(self) -> (call: Option<Call>)
        ensures
            call is Some <==> self.owns(),
            call matches Some(c) ==> c@ == unref_call(self.widget_addr()),
    {
        if self.can_drop {
            Some(Call::unary(Symbol::GObjectUnref, Arg::Pointer(self.pointer.addr)))
        } else {
            None
        }
    }
}

impl FFIWidget for AspectFrame {
    closed spec fn widget_addr(&self) -> usize {
        self.pointer.addr
    }

    fn get_widget(&self) -> (p: Ptr<C_GtkWidget>) {
        self.pointer
    }

    /// A view of the widget at `widget`: the handle does not own it.
    fn wrap(widget: Ptr<C_GtkWidget>) -> (r: AspectFrame)
        ensures
            !r.owns(),
    {
        AspectFrame { pointer: widget, can_drop: false }
    }
}

} // verus!
