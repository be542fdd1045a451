//! A button that shows a colour and opens a chooser for it.

use crate::ffi::{Arg, ArgView, Call, CallView, Symbol};
use crate::glib::traits::{unref_call, Ptr};
use crate::glib::translate::{has_nul, CStrBuf};
use crate::glib::{spec_to_gboolean, to_gboolean};
use crate::gtk::ffi::{C_GtkWidget, FFIWidget};
use vstd::prelude::*;
use vstd::string::StringSliceAdditionalSpecFns;

verus! {

/// A handle on a colour button. It either owns the widget, when it was made
/// from what a constructor returned, or is a view of a widget that someone else
/// owns.
#[derive(Debug)]
pub struct ColorButton {
    pointer: Ptr<C_GtkWidget>,
    can_drop: bool,
}

impl ColorButton {
    /// Whether the handle owns the widget.
    pub closed spec fn owns(&self) -> bool {
        self.can_drop
    }

    pub fn can_drop(&self) -> (b: bool)
        ensures
            b == self.owns(),
    {
        self.can_drop
    }

    /// The handle that owns the widget which a constructor returned at
    /// `pointer`; `None` where the constructor failed and returned the null
    /// pointer.
    pub fn check_pointer(pointer: Ptr<C_GtkWidget>) -> (r: Option<ColorButton>)
        ensures
            r is Some <==> pointer.addr != 0,
            r matches Some(w) ==> w.widget_addr() == pointer.addr && w.owns(),
    {
        if pointer.is_null() {
            None
        } else {
            Some(ColorButton { pointer, can_drop: true })
        }
    }

    /// Ends the handle. A handle that owns its widget gives up its one
    /// reference; a view has none to give up.
    pub fn release(self) -> (call: Option<Call>)
        ensures
            call is Some <==> self.owns(),
            call matches Some(c) ==> c@ == unref_call(self.widget_addr()),
    {
        if self.can_drop {
            Some(Call::unary(Symbol::GObjectUnref, Arg::Pointer(self.pointer.addr)))
        } else {
            None
        }
    }

    /// How a colour button is made: the call of its constructor.
    pub fn new() -> (call: Call)
        ensures
            call@ == (CallView { symbol: Symbol::GtkColorButtonNew, args: seq![] }),
    {
        Call::nullary(Symbol::GtkColorButtonNew)
    }

    /// The call that sets the opacity, from 0 to 65535.
    pub fn set_alpha(&self, alpha: u16) -> (call: Call)
        ensures
            call@ == (CallView {
                symbol: Symbol::GtkColorButtonSetAlpha,
                args: seq![
                    ArgView::Pointer(self.widget_addr()),
                    ArgView::UInt(alpha as u32),
                ],
            }),
    {
        Call::binary(
            Symbol::GtkColorButtonSetAlpha,
            Arg::Pointer(self.pointer.addr),
            Arg::UInt(alpha as u32),
        )
    }

    /// The call that asks for the opacity; it returns a number from 0 to 65535.
    pub fn get_alpha(&self) -> (call: Call)
        ensures
            call@ == (CallView {
                symbol: Symbol::GtkColorButtonGetAlpha,
                args: seq![ArgView::Pointer(self.widget_addr())],
            }),
    {
        Call::unary(Symbol::GtkColorButtonGetAlpha, Arg::Pointer(self.pointer.addr))
    }

    /// The call that sets whether the button shows the opacity.
    pub fn set_use_alpha(&self, use_alpha: bool) -> (call: Call)
        ensures
            call@ == (CallView {
                symbol: Symbol::GtkColorButtonSetUseAlpha,
                args: seq![
                    ArgView::Pointer(self.widget_addr()),
                    ArgView::Int(spec_to_gboolean(use_alpha)),
                ],
            }),
    {
        Call::binary(
            Symbol::GtkColorButtonSetUseAlpha,
            Arg::Pointer(self.pointer.addr),
            Arg::Int(to_gboolean(use_alpha)),
        )
    }

    /// The call that asks whether the button shows the opacity; it returns a
    /// truth value.
    pub fn get_use_alpha(&self) -> (call: Call)
        ensures
            call@ == (CallView {
                symbol: Symbol::GtkColorButtonGetUseAlpha,
                args: seq![ArgView::Pointer(self.widget_addr())],
            }),
    {
        Call::unary(Symbol::GtkColorButtonGetUseAlpha, Arg::Pointer(self.pointer.addr))
    }

    /// The call that sets the title of the chooser.
    pub fn set_title(&self, title: &str) -> (call: Call)
        requires
            !has_nul(title.spec_bytes()),
        ensures
            call@ == (CallView {
                symbol: Symbol::GtkColorButtonSetTitle,
                args: seq![
                    ArgView::Pointer(self.widget_addr()),
                    ArgView::Str(title.spec_bytes()),
                ],
            }),
    {
        Call::binary(
            Symbol::GtkColorButtonSetTitle,
            Arg::Pointer(self.pointer.addr),
            Arg::Str(CStrBuf::from_str(title)),
        )
    }

    /// The call that asks for the title of the chooser; it returns a string
    /// that the button keeps.
    pub fn get_title(&self) -> (call: Call)
        ensures
            call@ == (CallView {
                symbol: Symbol::GtkColorButtonGetTitle,
                args: seq![ArgView::Pointer(self.widget_addr())],
            }),
    {
        Call::unary(Symbol::GtkColorButtonGetTitle, Arg::Pointer(self.pointer.addr))
    }
}

impl FFIWidget for ColorButton {
    closed spec fn widget_addr(&self) -> usize {
        self.pointer.addr
    }

    fn get_widget(&self) -> (p: Ptr<C_GtkWidget>) {
        self.pointer
    }

    /// A view of the widget at `widget`: the handle does not own it.
    fn wrap(widget: Ptr<C_GtkWidget>) -> (r: ColorButton)
        ensures
            !r.owns(),
    {
        ColorButton { pointer: widget, can_drop: false }
    }
}

} // verus!
