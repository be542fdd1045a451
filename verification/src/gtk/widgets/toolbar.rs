//! A bar of buttons and other tool items.

use crate::ffi::{Arg, ArgView, Call, CallView, Symbol};
use crate::glib::traits::{unref_call, Ptr};
use crate::glib::{spec_to_gboolean, to_gboolean};
use crate::gtk::ffi::{C_GtkWidget, FFIWidget};
use vstd::prelude::*;

verus! {

/// A handle on a toolbar. It either owns the widget, when it was made from what
/// a constructor returned, or is a view of a widget that someone else owns.
#[derive(Debug)]
pub struct Toolbar {
    pointer: Ptr<C_GtkWidget>,
    can_drop: bool,
}

impl Toolbar {
    /// Whether the handle owns the widget.
    pub closed spec fn owns(&self) -> bool {
        self.can_drop
    }

    pub fn can_drop(&self) -> (b: bool)
        ensures
            b == self.owns(),
    {
        self.can_drop
    }

    /// The handle that owns the widget which a constructor returned at
    /// `pointer`; `None` where the constructor failed and returned the null
    /// pointer.
    pub fn check_pointer(pointer: Ptr<C_GtkWidget>) -> (r: Option<Toolbar>)
        ensures
            r is Some <==> pointer.addr != 0,
            r matches Some(w) ==> w.widget_addr() == pointer.addr && w.owns(),
    {
        if pointer.is_null() {
            None
        } else {
            Some(Toolbar { pointer, can_drop: true })
        }
    }

    /// Ends the handle. A handle that owns its widget gives up its one
    /// reference; a view has none to give up.
    pub fn release(self) -> (call: Option<Call>)
        ensures
            call is Some <==> self.owns(),
            call matches Some(c) ==> c@ == unref_call(self.widget_addr()),
    {
        if self.can_drop {
            Some(Call::unary(Symbol::GObjectUnref, Arg::Pointer(self.pointer.addr)))
        } else {
            None
        }
    }

    /// How a toolbar is made: the call of its constructor.
    pub fn new() -> (call: Call)
        ensures
            call@ == (CallView { symbol: Symbol::GtkToolbarNew, args: seq![] }),
    {
        Call::nullary(Symbol::GtkToolbarNew)
    }

    /// The call that puts `item` into the toolbar at place `pos`.
    pub fn insert<T: FFIWidget>(&self, item: &T, pos: i32) -> (call: Call)
        ensures
            call@ == (CallView {
                symbol: Symbol::GtkToolbarInsert,
                args: seq![
                    ArgView::Pointer(self.widget_addr()),
                    ArgView::Pointer(item.widget_addr()),
                    ArgView::Int(pos),
                ],
            }),
    {
        Call::ternary(
            Symbol::GtkToolbarInsert,
            Arg::Pointer(self.pointer.addr),
            Arg::Pointer(item.get_widget().addr),
            Arg::Int(pos),
        )
    }

    /// The call that asks for the place of `item`; it returns a `gint`.
    pub fn item_index<T: FFIWidget>(&self, item: &T) -> (call: Call)
        ensures
            call@ == (CallView {
                symbol: Symbol::GtkToolbarGetItemIndex,
                args: seq![
                    ArgView::Pointer(self.widget_addr()),
                    ArgView::Pointer(item.widget_addr()),
                ],
            }),
    {
        Call::binary(
            Symbol::GtkToolbarGetItemIndex,
            Arg::Pointer(self.pointer.addr),
            Arg::Pointer(item.get_widget().addr),
        )
    }

    /// The call that asks how many items the toolbar has; it returns a `gint`.
    pub fn n_items(&self) -> (call: Call)
        ensures
            call@ == (CallView {
                symbol: Symbol::GtkToolbarGetNItems,
                args: seq![ArgView::Pointer(self.widget_addr())],
            }),
    {
        Call::unary(Symbol::GtkToolbarGetNItems, Arg::Pointer(self.pointer.addr))
    }

    /// The call that asks for the item at place `n`; it returns the address of
    /// an item that the toolbar keeps, or the null pointer.
    pub fn nth_item(&self, n: i32) -> (call: Call)
        ensures
            call@ == (CallView {
                symbol: Symbol::GtkToolbarGetNthItem,
                args: seq![ArgView::Pointer(self.widget_addr()), ArgView::Int(n)],
            }),
    {
        Call::binary(Symbol::GtkToolbarGetNthItem, Arg::Pointer(self.pointer.addr), Arg::Int(n))
    }

    /// The call that asks at which place an item dropped at `x`, `y` would go;
    /// it returns a `gint`.
    pub fn get_drop_index(&self, x: i32, y: i32) -> (call: Call)
        ensures
            call@ == (CallView {
                symbol: Symbol::GtkToolbarGetDropIndex,
                args: seq![
                    ArgView::Pointer(self.widget_addr()),
                    ArgView::Int(x),
                    ArgView::Int(y),
                ],
            }),
    {
        Call::ternary(
            Symbol::GtkToolbarGetDropIndex,
            Arg::Pointer(self.pointer.addr),
            Arg::Int(x),
            Arg::Int(y),
        )
    }

    /// The call that shows `item` at place `index` as the target of a drop.
    pub fn set_drop_highlight_item<T: FFIWidget>(&self, item: &T, index: i32) -> (call: Call)
        ensures
            call@ == (CallView {
                symbol: Symbol::GtkToolbarSetDropHighlightItem,
                args: seq![
                    ArgView::Pointer(self.widget_addr()),
                    ArgView::Pointer(item.widget_addr()),
                    ArgView::Int(index),
                ],
            }),
    {
        Call::ternary(
            Symbol::GtkToolbarSetDropHighlightItem,
            Arg::Pointer(self.pointer.addr),
            Arg::Pointer(item.get_widget().addr),
            Arg::Int(index),
        )
    }

    /// The call that sets whether an arrow leads to the items that do not fit.
    pub fn set_show_arrow(&self, show_arrow: bool) -> (call: Call)
        ensures
            call@ == (CallView {
                symbol: Symbol::GtkToolbarSetShowArrow,
                args: seq![
                    ArgView::Pointer(self.widget_addr()),
                    ArgView::Int(spec_to_gboolean(show_arrow)),
                ],
            }),
    {
        Call::binary(
            Symbol::GtkToolbarSetShowArrow,
            Arg::Pointer(self.pointer.addr),
            Arg::Int(to_gboolean(show_arrow)),
        )
    }

    /// The call that asks whether an arrow leads to the items that do not fit;
    /// it returns a truth value.
    pub fn get_show_arrow(&self) -> (call: Call)
        ensures
            call@ == (CallView {
                symbol: Symbol::GtkToolbarGetShowArrow,
                args: seq![ArgView::Pointer(self.widget_addr())],
            }),
    {
        Call::unary(Symbol::GtkToolbarGetShowArrow, Arg::Pointer(self.pointer.addr))
    }

    /// The call that takes back a size set for the icons.
    pub fn unset_icon_size(&self) -> (call: Call)
        ensures
            call@ == (CallView {
                symbol: Symbol::GtkToolbarUnsetIconSize,
                args: seq![ArgView::Pointer(self.widget_addr())],
            }),
    {
        Call::unary(Symbol::GtkToolbarUnsetIconSize, Arg::Pointer(self.pointer.addr))
    }

    /// The call that takes back a style set for the toolbar.
    pub fn unset_style(&self) -> (call: Call)
        ensures
            call@ == (CallView {
                symbol: Symbol::GtkToolbarUnsetStyle,
                args: seq![ArgView::Pointer(self.widget_addr())],
            }),
    {
        Call::unary(Symbol::GtkToolbarUnsetStyle, Arg::Pointer(self.pointer.addr))
    }

    /// The call that asks for the style; it returns the value of an
    /// enumeration.
    pub fn get_style(&self) -> (call: Call)
        ensures
            call@ == (CallView {
                symbol: Symbol::GtkToolbarGetStyle,
                args: seq![ArgView::Pointer(self.widget_addr())],
            }),
    {
        Call::unary(Symbol::GtkToolbarGetStyle, Arg::Pointer(self.pointer.addr))
    }

    /// The call that asks for the size of the icons; it returns the value of an
    /// enumeration.
    pub fn get_icon_size(&self) -> (call: Call)
        ensures
            call@ == (CallView {
                symbol: Symbol::GtkToolbarGetIconSize,
                args: seq![ArgView::Pointer(self.widget_addr())],
            }),
    {
        Call::unary(Symbol::GtkToolbarGetIconSize, Arg::Pointer(self.pointer.addr))
    }

    /// The call that asks for the relief of the buttons; it returns the value
    /// of an enumeration.
    pub fn get_relief_style(&self) -> (call: Call)
        ensures
            call@ == (CallView {
                symbol: Symbol::GtkToolbarGetReliefStyle,
                args: seq![ArgView::Pointer(self.widget_addr())],
            }),
    {
        Call::unary(Symbol::GtkToolbarGetReliefStyle, Arg::Pointer(self.pointer.addr))
    }
}

impl FFIWidget for Toolbar {
    closed spec fn widget_addr(&self) -> usize {
        self.pointer.addr
    }

    fn get_widget(&self) -> (p: Ptr<C_GtkWidget>) {
        self.pointer
    }

    /// A view of the widget at `widget`: the handle does not own it.
    fn wrap(widget: Ptr<C_GtkWidget>) -> (r: Toolbar)
        ensures
            !r.owns(),
    {
        Toolbar { pointer: widget, can_drop: false }
    }
}

} // verus!
