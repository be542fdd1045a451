//! A bar that holds the titles of menus.

use crate::ffi::{Arg, ArgView, Call, CallView, Symbol};
use crate::glib::traits::{unref_call, Ptr};
use crate::gtk::enums::PackDirection;
use crate::gtk::ffi::{C_GtkWidget, FFIWidget};
use vstd::prelude::*;

verus! {

/// A handle on a menu bar. It either owns the widget, when it was made from
/// what a constructor returned, or is a view of a widget that someone else
/// owns.
#[derive(Debug)]
pub struct MenuBar {
    pointer: Ptr<C_GtkWidget>,
    can_drop: bool,
}

impl MenuBar {
    /// Whether the handle owns the widget.
    pub closed spec fn owns(&self) -> bool {
        self.can_drop
    }

    pub fn can_drop(&self) -> (b: bool)
        ensures
            b == self.owns(),
    {
        self.can_drop
    }

    /// The handle that owns the widget which a constructor returned at
    /// `pointer`; `None` where the constructor failed and returned the null
    /// pointer.
    pub fn check_pointer(pointer: Ptr<C_GtkWidget>) -> (r: Option<MenuBar>)
        ensures
            r is Some <==> pointer.addr != 0,
            r matches Some(w) ==> w.widget_addr() == pointer.addr && w.owns(),
    {
        if pointer.is_null() {
            None
        } else {
            Some(MenuBar { pointer, can_drop: true })
        }
    }

    /// Ends the handle. A handle that owns its widget gives up its one
    /// reference; a view has none to give up.
    pub fn release(self) -> (call: Option<Call>)
        ensures
            call is Some <==> self.owns(),
            call matches Some(c) ==> c@ == unref_call(self.widget_addr()),
    {
        if self.can_drop {
            Some(Call::unary(Symbol::GObjectUnref, Arg::Pointer(self.pointer.addr)))
        } else {
            None
        }
    }

    /// How a menu bar is made: the call of its constructor.
    pub fn new() -> (call: Call)
        ensures
            call@ == (CallView { symbol: Symbol::GtkMenuBarNew, args: seq![] }),
    {
        Call::nullary(Symbol::GtkMenuBarNew)
    }

    /// The call that sets the direction in which the titles follow each other.
    pub fn set_pack_direction(&self, direction: PackDirection) -> (call: Call)
        ensures
            call@ == (CallView {
                symbol: Symbol::GtkMenuBarSetPackDirection,
                args: seq![
                    ArgView::Pointer(self.widget_addr()),
                    ArgView::Int(direction.spec_to_glib()),
                ],
            }),
    {
        Call::binary(
            Symbol::GtkMenuBarSetPackDirection,
            Arg::Pointer(self.pointer.addr),
            Arg::Int(direction.to_glib()),
        )
    }

    /// The call that asks for the direction in which the titles follow each
    /// other; it returns the value of an enumeration.
    pub fn get_pack_direction(&self) -> (call: Call)
        ensures
            call@ == (CallView {
                symbol: Symbol::GtkMenuBarGetPackDirection,
                args: seq![ArgView::Pointer(self.widget_addr())],
            }),
    {
        Call::unary(Symbol::GtkMenuBarGetPackDirection, Arg::Pointer(self.pointer.addr))
    }

    /// The call that sets the direction inside each title.
    pub fn set_child_pack_direction(&self, direction: PackDirection) -> (call: Call)
        ensures
            call@ == (CallView {
                symbol: Symbol::GtkMenuBarSetChildPackDirection,
                args: seq![
                    ArgView::Pointer(self.widget_addr()),
                    ArgView::Int(direction.spec_to_glib()),
                ],
            }),
    {
        Call::binary(
            Symbol::GtkMenuBarSetChildPackDirection,
            Arg::Pointer(self.pointer.addr),
            Arg::Int(direction.to_glib()),
        )
    }

    /// The call that asks for the direction inside each title; it returns the
    /// value of an enumeration.
    pub fn get_child_pack_direction(&self) -> (call: Call)
        ensures
            call@ == (CallView {
                symbol: Symbol::GtkMenuBarGetChildPackDirection,
                args: seq![ArgView::Pointer(self.widget_addr())],
            }),
    {
        Call::unary(Symbol::GtkMenuBarGetChildPackDirection, Arg::Pointer(self.pointer.addr))
    }
}

impl FFIWidget for MenuBar {
    closed spec fn widget_addr(&self) -> usize {
        self.pointer.addr
    }

    fn get_widget(&self) -> (p: Ptr<C_GtkWidget>) {
        self.pointer
    }

    /// A view of the widget at `widget`: the handle does not own it.
    fn wrap(widget: Ptr<C_GtkWidget>) -> (r: MenuBar)
        ensures
            !r.owns(),
    {
        MenuBar { pointer: widget, can_drop: false }
    }
}

} // verus!
