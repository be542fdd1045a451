//! The widget types that hold the address of their widget themselves.

use crate::ffi::{Arg, ArgView, Call, Symbol};
use crate::glib::traits::{unref_call, Ptr};
use crate::gtk::ffi::{C_GtkWidget, FFIWidget};
use vstd::prelude::*;
use vstd::string::StringSliceAdditionalSpecFns;


pub mod aspectframe;
pub mod color_button;
pub mod fixed;
pub mod font_chooser_widget;
pub mod frame;
pub mod grid;
pub mod image;
pub mod menu_tool_button;
pub mod menubar;
pub mod message_dialog;
pub mod overlay;
pub mod paned;
pub mod paper_size;
pub mod radio_button;
pub mod scalebutton;
pub mod spinbutton;
pub mod text_mark;
pub mod toggletoolbutton;
pub mod toolbar;
pub mod toolbutton;
pub mod toolitem;
pub mod tree_model;
pub mod volume_button;
pub mod window;

verus! {

/// A text that may be left out, as a constructor gets it: a string, or the null
/// pointer for none.
pub open spec fn optional_text(text: Option<&str>) -> ArgView {
    match text {
        Some(t) => ArgView::Str(t.spec_bytes()),
        None => ArgView::Pointer(0),
    }
}

/// A handle on a widget of any class. It either owns the widget or is a view of
/// a widget that someone else owns.
#[derive(Debug)]
pub struct Widget {
    pointer: Ptr<C_GtkWidget>,
    can_drop: bool,
}

impl Widget {
    /// Whether the handle owns the widget.
    pub closed spec fn owns(&self) -> bool {
        self.can_drop
    }

    pub fn can_drop(&self) -> (b: bool)
        ensures
            b == self.owns(),
    {
        self.can_drop
    }

    /// The handle that owns the widget which a constructor returned at
    /// `pointer`; `None` where the constructor failed and returned the null
    /// pointer.
    pub fn check_pointer(pointer: Ptr<C_GtkWidget>) -> (r: Option<Widget>)
        ensures
            r is Some <==> pointer.addr != 0,
            r matches Some(w) ==> w.widget_addr() == pointer.addr && w.owns(),
    {
        if pointer.is_null() {
            None
        } else {
            Some(Widget { pointer, can_drop: true })
        }
    }

    /// Ends the handle. A handle that owns its widget gives up its one
    /// reference; a view has none to give up.
    pub fn release(self) -> (call: Option<Call>)
        ensures
            call is Some <==> self.owns(),
            call matches Some(c) ==> c@ == unref_call(self.widget_addr()),
    {
        if self.can_drop {
            Some(Call::unary(Symbol::GObjectUnref, Arg::Pointer(self.pointer.addr)))
        } else {
            None
        }
    }
}

impl FFIWidget for Widget {
    closed spec fn widget_addr(&self) -> usize {
        self.pointer.addr
    }

    fn get_widget(&self) -> (p: Ptr<C_GtkWidget>) {
        self.pointer
    }

    /// A view of the widget at `widget`: the handle does not own it.
    fn wrap(widget: Ptr<C_GtkWidget>) -> (r: Widget)
        ensures
            !r.owns(),
    {
        Widget { pointer: widget, can_drop: false }
    }
}

} // verus!
