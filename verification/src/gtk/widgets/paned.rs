//! A widget with two panes and a handle between them.

use crate::ffi::{Arg, ArgView, Call, CallView, Symbol};
use crate::glib::traits::{unref_call, Ptr};
use crate::glib::{spec_to_gboolean, to_gboolean};
use crate::gtk::enums::Orientation;
use crate::gtk::ffi::{C_GtkWidget, FFIWidget};
use vstd::prelude::*;

verus! {

/// A handle on a paned widget. It either owns the widget, when it was made from
/// what a constructor returned, or is a view of a widget that someone else
/// owns.
#[derive(Debug)]
pub struct Paned {
    pointer: Ptr<C_GtkWidget>,
    can_drop: bool,
}

impl Paned {
    /// Whether the handle owns the widget.
    pub closed spec fn owns(&self) -> bool {
        self.can_drop
    }

    pub fn can_drop(&self) -> (b: bool)
        ensures
            b == self.owns(),
    {
        self.can_drop
    }

    /// The handle that owns the widget which a constructor returned at
    /// `pointer`; `None` where the constructor failed and returned the null
    /// pointer.
    pub fn check_pointer(pointer: Ptr<C_GtkWidget>) -> (r: Option<Paned>)
        ensures
            r is Some <==> pointer.addr != 0,
            r matches Some(w) ==> w.widget_addr() == pointer.addr && w.owns(),
    {
        if pointer.is_null() {
            None
        } else {
            Some(Paned { pointer, can_drop: true })
        }
    }

    /// Ends the handle. A handle that owns its widget gives up its one
    /// reference; a view has none to give up.
    pub fn release(self) -> (call: Option<Call>)
        ensures
            call is Some <==> self.owns(),
            call matches Some(c) ==> c@ == unref_call(self.widget_addr()),
    {
        if self.can_drop {
            Some(Call::unary(Symbol::GObjectUnref, Arg::Pointer(self.pointer.addr)))
        } else {
            None
        }
    }

    /// How a paned widget is made: the call of its constructor.
    pub fn new(orientation: Orientation) -> (call: Call)
        ensures
            call@ == (CallView {
                symbol: Symbol::GtkPanedNew,
                args: seq![ArgView::Int(orientation.spec_to_glib())],
            }),
    {
        Call::unary(Symbol::GtkPanedNew, Arg::Int(orientation.to_glib()))
    }

    /// The call that puts `child` into the first pane.
    pub fn add1<T: FFIWidget>(&self, child: &T) -> (call: Call)
        ensures
            call@ == (CallView {
                symbol: Symbol::GtkPanedAdd1,
                args: seq![
                    ArgView::Pointer(self.widget_addr()),
                    ArgView::Pointer(child.widget_addr()),
                ],
            }),
    {
        Call::binary(
            Symbol::GtkPanedAdd1,
            Arg::Pointer(self.pointer.addr),
            Arg::Pointer(child.get_widget().addr),
        )
    }

    /// The call that puts `child` into the second pane.
    pub fn add2<T: FFIWidget>(&self, child: &T) -> (call: Call)
        ensures
            call@ == (CallView {
                symbol: Symbol::GtkPanedAdd2,
                args: seq![
                    ArgView::Pointer(self.widget_addr()),
                    ArgView::Pointer(child.widget_addr()),
                ],
            }),
    {
        Call::binary(
            Symbol::GtkPanedAdd2,
            Arg::Pointer(self.pointer.addr),
            Arg::Pointer(child.get_widget().addr),
        )
    }

    /// The call that puts `child` into the first pane, and says whether it
    /// grows with the widget and whether it may get smaller than it asks.
    pub fn pack1<T: FFIWidget>(&self, child: &T, resize: bool, shrink: bool) -> (call: Call)
        ensures
            call@ == (CallView {
                symbol: Symbol::GtkPanedPack1,
                args: seq![
                    ArgView::Pointer(self.widget_addr()),
                    ArgView::Pointer(child.widget_addr()),
                    ArgView::Int(spec_to_gboolean(resize)),
                    ArgView::Int(spec_to_gboolean(shrink)),
                ],
            }),
    {
        Call::quaternary(
            Symbol::GtkPanedPack1,
            Arg::Pointer(self.pointer.addr),
            Arg::Pointer(child.get_widget().addr),
            Arg::Int(to_gboolean(resize)),
            Arg::Int(to_gboolean(shrink)),
        )
    }

    /// The call that puts `child` into the second pane, and says whether it
    /// grows with the widget and whether it may get smaller than it asks.
    pub fn pack2<T: FFIWidget>(&self, child: &T, resize: bool, shrink: bool) -> (call: Call)
        ensures
            call@ == (CallView {
                symbol: Symbol::GtkPanedPack2,
                args: seq![
                    ArgView::Pointer(self.widget_addr()),
                    ArgView::Pointer(child.widget_addr()),
                    ArgView::Int(spec_to_gboolean(resize)),
                    ArgView::Int(spec_to_gboolean(shrink)),
                ],
            }),
    {
        Call::quaternary(
            Symbol::GtkPanedPack2,
            Arg::Pointer(self.pointer.addr),
            Arg::Pointer(child.get_widget().addr),
            Arg::Int(to_gboolean(resize)),
            Arg::Int(to_gboolean(shrink)),
        )
    }

    /// The call that puts the handle at `position` pixels.
    pub fn set_position(&self, position: i32) -> (call: Call)
        ensures
            call@ == (CallView {
                symbol: Symbol::GtkPanedSetPosition,
                args: seq![ArgView::Pointer(self.widget_addr()), ArgView::Int(position)],
            }),
    {
        Call::binary(
            Symbol::GtkPanedSetPosition,
            Arg::Pointer(self.pointer.addr),
            Arg::Int(position),
        )
    }

    /// The call that asks where the handle is; it returns a `gint`.
    pub fn get_position(&self) -> (call: Call)
        ensures
            call@ == (CallView {
                symbol: Symbol::GtkPanedGetPosition,
                args: seq![ArgView::Pointer(self.widget_addr())],
            }),
    {
        Call::unary(Symbol::GtkPanedGetPosition, Arg::Pointer(self.pointer.addr))
    }

    /// The call that asks for the window of the handle; it returns an address.
    pub fn get_handle_window(&self) -> (call: Call)
        ensures
            call@ == (CallView {
                symbol: Symbol::GtkPanedGetHandleWindow,
                args: seq![ArgView::Pointer(self.widget_addr())],
            }),
    {
        Call::unary(Symbol::GtkPanedGetHandleWindow, Arg::Pointer(self.pointer.addr))
    }
}

impl FFIWidget for Paned {
    closed spec fn widget_addr(&self) -> usize {
        self.pointer.addr
    }

    fn get_widget(&self) -> (p: Ptr<C_GtkWidget>) {
        self.pointer
    }

    /// A view of the widget at `widget`: the handle does not own it.
    fn wrap(widget: Ptr<C_GtkWidget>) -> (r: Paned)
        ensures
            !r.owns(),
    {
        Paned { pointer: widget, can_drop: false }
    }
}

} // verus!
