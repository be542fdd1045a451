//! A container which puts its children at fixed coordinates.

use crate::ffi::{Arg, ArgView, Call, CallView, Symbol};
use crate::glib::traits::{unref_call, Ptr};
use crate::gtk::ffi::{C_GtkWidget, FFIWidget};
use vstd::prelude::*;

verus! {

/// A handle on a fixed container. It either owns the widget, when it was made
/// from what a constructor returned, or is a view of a widget that someone else
/// owns.
#[derive(Debug)]
pub struct Fixed {
    pointer: Ptr<C_GtkWidget>,
    can_drop: bool,
}

impl Fixed {
    /// Whether the handle owns the widget.
    pub closed spec fn owns(&self) -> bool {
        self.can_drop
    }

    pub fn can_drop(&self) -> (b: bool)
        ensures
            b == self.owns(),
    {
        self.can_drop
    }

    /// The handle that owns the widget which a constructor returned at
    /// `pointer`; `None` where the constructor failed and returned the null
    /// pointer.
    pub fn check_pointer(pointer: Ptr<C_GtkWidget>) -> (r: Option<Fixed>)
        ensures
            r is Some <==> pointer.addr != 0,
            r matches Some(w) ==> w.widget_addr() == pointer.addr && w.owns(),
    {
        if pointer.is_null() {
            None
        } else {
            Some(Fixed { pointer, can_drop: true })
        }
    }

    /// Ends the handle. A handle that owns its widget gives up its one
    /// reference; a view has none to give up.
    pub fn release(self) -> (call: Option<Call>)
        ensures
            call is Some <==> self.owns(),
            call matches Some(c) ==> c@ == unref_call(self.widget_addr()),
    {
        if self.can_drop {
            Some(Call::unary(Symbol::GObjectUnref, Arg::Pointer(self.pointer.addr)))
        } else {
            None
        }
    }

    /// How a fixed container is made: the call of its constructor.
    pub fn new() -> (call: Call)
        ensures
            call@ == (CallView { symbol: Symbol::GtkFixedNew, args: seq![] }),
    {
        Call::nullary(Symbol::GtkFixedNew)
    }

    /// The call that puts `widget` into the container at `x`, `y`.
    pub fn put<T: FFIWidget>(&self, widget: &T, x: i32, y: i32) -> (call: Call)
        ensures
            call@ == (CallView {
                symbol: Symbol::GtkFixedPut,
                args: seq![
                    ArgView::Pointer(self.widget_addr()),
                    ArgView::Pointer(widget.widget_addr()),
                    ArgView::Int(x),
                    ArgView::Int(y),
                ],
            }),
    {
        Call::quaternary(
            Symbol::GtkFixedPut,
            Arg::Pointer(self.pointer.addr),
            Arg::Pointer(widget.get_widget().addr),
            Arg::Int(x),
            Arg::Int(y),
        )
    }

    /// The call that moves `widget`, a child of the container, to `x`, `y`.
    pub fn move_<T: FFIWidget>(&self, widget: &T, x: i32, y: i32) -> (call: Call)
        ensures
            call@ == (CallView {
                symbol: Symbol::GtkFixedMove,
                args: seq![
                    ArgView::Pointer(self.widget_addr()),
                    ArgView::Pointer(widget.widget_addr()),
                    ArgView::Int(x),
                    ArgView::Int(y),
                ],
            }),
    {
        Call::quaternary(
            Symbol::GtkFixedMove,
            Arg::Pointer(self.pointer.addr),
            Arg::Pointer(widget.get_widget().addr),
            Arg::Int(x),
            Arg::Int(y),
        )
    }
}

impl FFIWidget for Fixed {
    closed spec fn widget_addr(&self) -> usize {
        self.pointer.addr
    }

    fn get_widget(&self) -> (p: Ptr<C_GtkWidget>) {
        self.pointer
    }

    /// A view of the widget at `widget`: the handle does not own it.
    fn wrap(widget: Ptr<C_GtkWidget>) -> (r: Fixed)
        ensures
            !r.owns(),
    {
        Fixed { pointer: widget, can_drop: false }
    }
}

} // verus!
