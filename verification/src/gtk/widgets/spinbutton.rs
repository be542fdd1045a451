//! An entry for a number, with two arrows to change it.

use crate::ffi::{Arg, ArgView, Call, CallView, Symbol};
use crate::glib::traits::{unref_call, Ptr};
use crate::glib::{spec_to_gboolean, to_gboolean};
use crate::gtk::ffi::{C_GtkWidget, FFIWidget};
use vstd::prelude::*;

verus! {

/// A handle on a spin button. It either owns the widget, when it was made from
/// what a constructor returned, or is a view of a widget that someone else
/// owns.
#[derive(Debug)]
pub struct SpinButton {
    pointer: Ptr<C_GtkWidget>,
    can_drop: bool,
}

impl SpinButton {
    /// Whether the handle owns the widget.
    pub closed spec fn owns(&self) -> bool {
        self.can_drop
    }

    pub fn can_drop(&self) -> (b: bool)
        ensures
            b == self.owns(),
    {
        self.can_drop
    }

    /// The handle that owns the widget which a constructor returned at
    /// `pointer`; `None` where the constructor failed and returned the null
    /// pointer.
    pub fn check_pointer(pointer: Ptr<C_GtkWidget>) -> (r: Option<SpinButton>)
        ensures
            r is Some <==> pointer.addr != 0,
            r matches Some(w) ==> w.widget_addr() == pointer.addr && w.owns(),
    {
        if pointer.is_null() {
            None
        } else {
            Some(SpinButton { pointer, can_drop: true })
        }
    }

    /// Ends the handle. A handle that owns its widget gives up its one
    /// reference; a view has none to give up.
    pub fn release(self) -> (call: Option<Call>)
        ensures
            call is Some <==> self.owns(),
            call matches Some(c) ==> c@ == unref_call(self.widget_addr()),
    {
        if self.can_drop {
            Some(Call::unary(Symbol::GObjectUnref, Arg::Pointer(self.pointer.addr)))
        } else {
            None
        }
    }

    /// The call that sets how many decimal places are shown.
    pub fn set_digits(&self, digits: u32) -> (call: Call)
        ensures
            call@ == (CallView {
                symbol: Symbol::GtkSpinButtonSetDigits,
                args: seq![ArgView::Pointer(self.widget_addr()), ArgView::UInt(digits)],
            }),
    {
        Call::binary(
            Symbol::GtkSpinButtonSetDigits,
            Arg::Pointer(self.pointer.addr),
            Arg::UInt(digits),
        )
    }

    /// The call that asks how many decimal places are shown; it returns a
    /// `guint`.
    pub fn get_digits(&self) -> (call: Call)
        ensures
            call@ == (CallView {
                symbol: Symbol::GtkSpinButtonGetDigits,
                args: seq![ArgView::Pointer(self.widget_addr())],
            }),
    {
        Call::unary(Symbol::GtkSpinButtonGetDigits, Arg::Pointer(self.pointer.addr))
    }

    /// The call that asks for the value, rounded; it returns a `gint`.
    pub fn get_value_as_int(&self) -> (call: Call)
        ensures
            call@ == (CallView {
                symbol: Symbol::GtkSpinButtonGetValueAsInt,
                args: seq![ArgView::Pointer(self.widget_addr())],
            }),
    {
        Call::unary(Symbol::GtkSpinButtonGetValueAsInt, Arg::Pointer(self.pointer.addr))
    }

    /// The call that sets whether anything but digits may be typed.
    pub fn set_numeric(&self, numeric: bool) -> (call: Call)
        ensures
            call@ == (CallView {
                symbol: Symbol::GtkSpinButtonSetNumeric,
                args: seq![
                    ArgView::Pointer(self.widget_addr()),
                    ArgView::Int(spec_to_gboolean(numeric)),
                ],
            }),
    {
        Call::binary(
            Symbol::GtkSpinButtonSetNumeric,
            Arg::Pointer(self.pointer.addr),
            Arg::Int(to_gboolean(numeric)),
        )
    }

    /// The call that asks whether only digits may be typed; it returns a truth
    /// value.
    pub fn get_numeric(&self) -> (call: Call)
        ensures
            call@ == (CallView {
                symbol: Symbol::GtkSpinButtonGetNumeric,
                args: seq![ArgView::Pointer(self.widget_addr())],
            }),
    {
        Call::unary(Symbol::GtkSpinButtonGetNumeric, Arg::Pointer(self.pointer.addr))
    }

    /// The call that sets whether the value wraps around at its limits.
    pub fn set_wrap(&self, wrap: bool) -> (call: Call)
        ensures
            call@ == (CallView {
                symbol: Symbol::GtkSpinButtonSetWrap,
                args: seq![
                    ArgView::Pointer(self.widget_addr()),
                    ArgView::Int(spec_to_gboolean(wrap)),
                ],
            }),
    {
        Call::binary(
            Symbol::GtkSpinButtonSetWrap,
            Arg::Pointer(self.pointer.addr),
            Arg::Int(to_gboolean(wrap)),
        )
    }

    /// The call that asks whether the value wraps around; it returns a truth
    /// value.
    pub fn get_wrap(&self) -> (call: Call)
        ensures
            call@ == (CallView {
                symbol: Symbol::GtkSpinButtonGetWrap,
                args: seq![ArgView::Pointer(self.widget_addr())],
            }),
    {
        Call::unary(Symbol::GtkSpinButtonGetWrap, Arg::Pointer(self.pointer.addr))
    }

    /// The call that sets whether typed values are moved to the nearest step.
    pub fn set_snap_to_ticks(&self, snap_to_ticks: bool) -> (call: Call)
        ensures
            call@ == (CallView {
                symbol: Symbol::GtkSpinButtonSetSnapToTicks,
                args: seq![
                    ArgView::Pointer(self.widget_addr()),
                    ArgView::Int(spec_to_gboolean(snap_to_ticks)),
                ],
            }),
    {
        Call::binary(
            Symbol::GtkSpinButtonSetSnapToTicks,
            Arg::Pointer(self.pointer.addr),
            Arg::Int(to_gboolean(snap_to_ticks)),
        )
    }

    /// The call that asks whether typed values are moved to the nearest step;
    /// it returns a truth value.
    pub fn get_snap_to_ticks(&self) -> (call: Call)
        ensures
            call@ == (CallView {
                symbol: Symbol::GtkSpinButtonGetSnapToTicks,
                args: seq![ArgView::Pointer(self.widget_addr())],
            }),
    {
        Call::unary(Symbol::GtkSpinButtonGetSnapToTicks, Arg::Pointer(self.pointer.addr))
    }

    /// The call that makes the button read its text again.
    pub fn update(&self) -> (call: Call)
        ensures
            call@ == (CallView {
                symbol: Symbol::GtkSpinButtonUpdate,
                args: seq![ArgView::Pointer(self.widget_addr())],
            }),
    {
        Call::unary(Symbol::GtkSpinButtonUpdate, Arg::Pointer(self.pointer.addr))
    }
}

impl FFIWidget for SpinButton {
    closed spec fn widget_addr(&self) -> usize {
        self.pointer.addr
    }

    fn get_widget(&self) -> (p: Ptr<C_GtkWidget>) {
        self.pointer
    }

    /// A view of the widget at `widget`: the handle does not own it.
    fn wrap(widget: Ptr<C_GtkWidget>) -> (r: SpinButton)
        ensures
            !r.owns(),
    {
        SpinButton { pointer: widget, can_drop: false }
    }
}

} // verus!
