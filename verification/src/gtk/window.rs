//! Toplevel windows.

use crate::ffi::{Arg, ArgView, Call, CallView, Symbol};
use crate::glib::traits::{AsPtr, Cast, ConstPtr, IsA, Recipe};
use crate::glib::translate::{has_nul, CStrBuf};
use crate::gtk::enums::{WindowPosition, WindowType};
use crate::gtk::ffi::C_GtkWindow;
use vstd::prelude::*;
use vstd::string::StringSliceAdditionalSpecFns;

verus! {

/// The operations of a window. Every handle whose tag is related to the
/// window class has them.
pub trait WindowTrait: AsPtr {
    /// The call that sets the size the window has when first shown.
    fn set_default_size(&self, width: i32, height: i32) -> (call: Call)
        ensures
            call@ == (CallView {
                symbol: Symbol::GtkWindowSetDefaultSize,
                args: seq![
                    ArgView::Pointer(self.addr()),
                    ArgView::Int(width),
                    ArgView::Int(height),
                ],
            }),
    ;

    /// The call that sets the title. The call owns a nul-terminated copy of
    /// `title`.
    fn set_title(&self, title: &str) -> (call: Call)
        requires
            !has_nul(title.spec_bytes()),
        ensures
            call@ == (CallView {
                symbol: Symbol::GtkWindowSetTitle,
                args: seq![ArgView::Pointer(self.addr()), ArgView::Str(title.spec_bytes())],
            }),
    ;

    /// The call that sets where the window is first placed.
    fn set_window_position(&self, window_position: WindowPosition) -> (call: Call)
        ensures
            call@ == (CallView {
                symbol: Symbol::GtkWindowSetPosition,
                args: seq![
                    ArgView::Pointer(self.addr()),
                    ArgView::Int(window_position.spec_to_glib()),
                ],
            }),
    ;

    /// The call that asks for the title. It returns a string that the
    /// window keeps, or the null pointer;
    /// [`from_glib_none`](crate::glib::translate::from_glib_none) copies it.
    fn get_title(&self) -> (call: Call)
        ensures
            call@ == (CallView {
                symbol: Symbol::GtkWindowGetTitle,
                args: seq![ArgView::Pointer(self.addr())],
            }),
    ;
}

impl<T: AsPtr> WindowTrait for T where T::Inner: IsA<C_GtkWindow> {
    fn set_default_size(&self, width: i32, height: i32) -> (call: Call) {
        let window: ConstPtr<C_GtkWindow> = self.as_ptr().cast();
        Call::ternary(
            Symbol::GtkWindowSetDefaultSize,
            Arg::Pointer(window.addr),
            Arg::Int(width),
            Arg::Int(height),
        )
    }

    fn set_title(&self, title: &str) -> (call: Call) {
        let window: ConstPtr<C_GtkWindow> = self.as_ptr().cast();
        let c_str = CStrBuf::from_str(title);
        Call::binary(Symbol::GtkWindowSetTitle, Arg::Pointer(window.addr), Arg::Str(c_str))
    }

    fn set_window_position(&self, window_position: WindowPosition) -> (call: Call) {
        let window: ConstPtr<C_GtkWindow> = self.as_ptr().cast();
        Call::binary(
            Symbol::GtkWindowSetPosition,
            Arg::Pointer(window.addr),
            Arg::Int(window_position.to_glib()),
        )
    }

    fn get_title(&self) -> (call: Call) {
        let window: ConstPtr<C_GtkWindow> = self.as_ptr().cast();
        Call::unary(Symbol::GtkWindowGetTitle, Arg::Pointer(window.addr))
    }
}

/// The constructors of windows.
pub struct Window;

impl Window {
    /// How a window of kind `window_type` is made.
    pub fn new(window_type: WindowType) -> (recipe: Recipe<C_GtkWindow>)
        ensures
            recipe.creation() == (CallView {
                symbol: Symbol::GtkWindowNew,
                args: seq![ArgView::Int(window_type.spec_to_glib())],
            }),
            recipe.pending() == Seq::<CallView>::empty(),
    {
        Recipe::plain(Call::unary(Symbol::GtkWindowNew, Arg::Int(window_type.to_glib())))
    }
}

} // verus!
