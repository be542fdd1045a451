//! What every button can do.

use crate::ffi::{Arg, ArgView, Call, CallView, Symbol};
use crate::glib::traits::{AsPtr, Cast, ConstPtr, IsA};
use crate::glib::translate::{has_nul, CStrBuf};
use crate::glib::{spec_to_gboolean, to_gboolean};
use crate::gtk::enums::{PositionType, ReliefStyle};
use crate::gtk::ffi::{C_GtkButton, C_GtkWidget};
use vstd::prelude::*;
use vstd::string::StringSliceAdditionalSpecFns;

verus! {

/// The operations of a button.
///
/// Every handle whose tag is related to the class has them.
pub trait GtkButton: AsPtr {
    /// The call that emits the `pressed` signal on the button.
    fn pressed(&self) -> (call: Call)
        ensures
            call@ == (CallView {
                symbol: Symbol::GtkButtonPressed,
                args: seq![ArgView::Pointer(self.addr())],
            }),
    ;

    /// The call that emits the `released` signal on the button.
    fn released(&self) -> (call: Call)
        ensures
            call@ == (CallView {
                symbol: Symbol::GtkButtonReleased,
                args: seq![ArgView::Pointer(self.addr())],
            }),
    ;

    /// The call that emits the `clicked` signal on the button.
    fn clicked(&self) -> (call: Call)
        ensures
            call@ == (CallView {
                symbol: Symbol::GtkButtonClicked,
                args: seq![ArgView::Pointer(self.addr())],
            }),
    ;

    /// The call that emits the `enter` signal on the button.
    fn enter(&self) -> (call: Call)
        ensures
            call@ == (CallView {
                symbol: Symbol::GtkButtonEnter,
                args: seq![ArgView::Pointer(self.addr())],
            }),
    ;

    /// The call that emits the `leave` signal on the button.
    fn leave(&self) -> (call: Call)
        ensures
            call@ == (CallView {
                symbol: Symbol::GtkButtonLeave,
                args: seq![ArgView::Pointer(self.addr())],
            }),
    ;

    /// The call that sets the relief of the edges.
    fn set_relief(&self, new_style: ReliefStyle) -> (call: Call)
        ensures
            call@ == (CallView {
                symbol: Symbol::GtkButtonSetRelief,
                args: seq![ArgView::Pointer(self.addr()), ArgView::Int(new_style.spec_to_glib())],
            }),
    ;

    /// The call that asks for the relief of the edges; it returns the value of
    /// an enumeration, which [`ReliefStyle::from_glib`] reads.
    fn get_relief(&self) -> (call: Call)
        ensures
            call@ == (CallView {
                symbol: Symbol::GtkButtonGetRelief,
                args: seq![ArgView::Pointer(self.addr())],
            }),
    ;

    /// The call that asks for the text on the button; it returns a string that
    /// the button keeps, or the null pointer.
    fn get_label(&self) -> (call: Call)
        ensures
            call@ == (CallView {
                symbol: Symbol::GtkButtonGetLabel,
                args: seq![ArgView::Pointer(self.addr())],
            }),
    ;

    /// The call that sets the text on the button.
    fn set_label(&self, label: &str) -> (call: Call)
        requires
            !has_nul(label.spec_bytes()),
        ensures
            call@ == (CallView {
                symbol: Symbol::GtkButtonSetLabel,
                args: seq![ArgView::Pointer(self.addr()), ArgView::Str(label.spec_bytes())],
            }),
    ;

    /// The call that asks whether the text names a stock item; it returns a
    /// truth value.
    fn get_use_stock(&self) -> (call: Call)
        ensures
            call@ == (CallView {
                symbol: Symbol::GtkButtonGetUseStock,
                args: seq![ArgView::Pointer(self.addr())],
            }),
    ;

    /// The call that sets whether the text names a stock item.
    fn set_use_stock(&self, use_stock: bool) -> (call: Call)
        ensures
            call@ == (CallView {
                symbol: Symbol::GtkButtonSetUseStock,
                args: seq![
                    ArgView::Pointer(self.addr()),
                    ArgView::Int(spec_to_gboolean(use_stock)),
                ],
            }),
    ;

    /// The call that asks whether an underscore in the text marks the mnemonic
    /// key; it returns a truth value.
    fn get_use_underline(&self) -> (call: Call)
        ensures
            call@ == (CallView {
                symbol: Symbol::GtkButtonGetUseUnderline,
                args: seq![ArgView::Pointer(self.addr())],
            }),
    ;

    /// The call that sets whether an underscore in the text marks the mnemonic
    /// key.
    fn set_use_underline(&self, use_underline: bool) -> (call: Call)
        ensures
            call@ == (CallView {
                symbol: Symbol::GtkButtonSetUseUnderline,
                args: seq![
                    ArgView::Pointer(self.addr()),
                    ArgView::Int(spec_to_gboolean(use_underline)),
                ],
            }),
    ;

    /// The call that sets whether a click gives the button the focus.
    fn set_focus_on_click(&self, focus_on_click: bool) -> (call: Call)
        ensures
            call@ == (CallView {
                symbol: Symbol::GtkButtonSetFocusOnClick,
                args: seq![
                    ArgView::Pointer(self.addr()),
                    ArgView::Int(spec_to_gboolean(focus_on_click)),
                ],
            }),
    ;

    /// The call that asks whether a click gives the button the focus; it
    /// returns a truth value.
    fn get_focus_on_click(&self) -> (call: Call)
        ensures
            call@ == (CallView {
                symbol: Symbol::GtkButtonGetFocusOnClick,
                args: seq![ArgView::Pointer(self.addr())],
            }),
    ;

    /// The call that sets the widget that the button shows as its image.
    fn set_image<W: AsPtr>(&self, image: &W) -> (call: Call)
        where
            W::Inner: IsA<C_GtkWidget>,
        ensures
            call@ == (CallView {
                symbol: Symbol::GtkButtonSetImage,
                args: seq![ArgView::Pointer(self.addr()), ArgView::Pointer(image.addr())],
            }),
    ;

    /// The call that sets the side of the text at which the image stands.
    fn set_image_position(&self, position: PositionType) -> (call: Call)
        ensures
            call@ == (CallView {
                symbol: Symbol::GtkButtonSetImagePosition,
                args: seq![ArgView::Pointer(self.addr()), ArgView::Int(position.spec_to_glib())],
            }),
    ;

    /// The call that asks for the side of the text at which the image stands;
    /// it returns the value of an enumeration, which
    /// [`PositionType::from_glib`] reads.
    fn get_image_position(&self) -> (call: Call)
        ensures
            call@ == (CallView {
                symbol: Symbol::GtkButtonGetImagePosition,
                args: seq![ArgView::Pointer(self.addr())],
            }),
    ;

    /// The call that sets whether the image is shown whatever the settings say.
    fn set_always_show_image(&self, always_show: bool) -> (call: Call)
        ensures
            call@ == (CallView {
                symbol: Symbol::GtkButtonSetAlwaysShowImage,
                args: seq![
                    ArgView::Pointer(self.addr()),
                    ArgView::Int(spec_to_gboolean(always_show)),
                ],
            }),
    ;

    /// The call that asks whether the image is shown whatever the settings say;
    /// it returns a truth value.
    fn get_always_show_image(&self) -> (call: Call)
        ensures
            call@ == (CallView {
                symbol: Symbol::GtkButtonGetAlwaysShowImage,
                args: seq![ArgView::Pointer(self.addr())],
            }),
    ;
}

impl<T: AsPtr> GtkButton for T where T::Inner: IsA<C_GtkButton> {
    fn pressed(&self) -> (call: Call) {
        let target: ConstPtr<C_GtkButton> = self.as_ptr().cast();
        Call::unary(Symbol::GtkButtonPressed, Arg::Pointer(target.addr))
    }

    fn released(&self) -> (call: Call) {
        let target: ConstPtr<C_GtkButton> = self.as_ptr().cast();
        Call::unary(Symbol::GtkButtonReleased, Arg::Pointer(target.addr))
    }

    fn clicked(&self) -> (call: Call) {
        let target: ConstPtr<C_GtkButton> = self.as_ptr().cast();
        Call::unary(Symbol::GtkButtonClicked, Arg::Pointer(target.addr))
    }

    fn enter(&self) -> (call: Call) {
        let target: ConstPtr<C_GtkButton> = self.as_ptr().cast();
        Call::unary(Symbol::GtkButtonEnter, Arg::Pointer(target.addr))
    }

    fn leave(&self) -> (call: Call) {
        let target: ConstPtr<C_GtkButton> = self.as_ptr().cast();
        Call::unary(Symbol::GtkButtonLeave, Arg::Pointer(target.addr))
    }

    fn set_relief(&self, new_style: ReliefStyle) -> (call: Call) {
        let target: ConstPtr<C_GtkButton> = self.as_ptr().cast();
        Call::binary(
            Symbol::GtkButtonSetRelief,
            Arg::Pointer(target.addr),
            Arg::Int(new_style.to_glib()),
        )
    }

    fn get_relief(&self) -> (call: Call) {
        let target: ConstPtr<C_GtkButton> = self.as_ptr().cast();
        Call::unary(Symbol::GtkButtonGetRelief, Arg::Pointer(target.addr))
    }

    fn get_label(&self) -> (call: Call) {
        let target: ConstPtr<C_GtkButton> = self.as_ptr().cast();
        Call::unary(Symbol::GtkButtonGetLabel, Arg::Pointer(target.addr))
    }

    fn set_label(&self, label: &str) -> (call: Call) {
        let target: ConstPtr<C_GtkButton> = self.as_ptr().cast();
        Call::binary(
            Symbol::GtkButtonSetLabel,
            Arg::Pointer(target.addr),
            Arg::Str(CStrBuf::from_str(label)),
        )
    }

    fn get_use_stock(&self) -> (call: Call) {
        let target: ConstPtr<C_GtkButton> = self.as_ptr().cast();
        Call::unary(Symbol::GtkButtonGetUseStock, Arg::Pointer(target.addr))
    }

    fn set_use_stock(&self, use_stock: bool) -> (call: Call) {
        let target: ConstPtr<C_GtkButton> = self.as_ptr().cast();
        Call::binary(
            Symbol::GtkButtonSetUseStock,
            Arg::Pointer(target.addr),
            Arg::Int(to_gboolean(use_stock)),
        )
    }

    fn get_use_underline(&self) -> (call: Call) {
        let target: ConstPtr<C_GtkButton> = self.as_ptr().cast();
        Call::unary(Symbol::GtkButtonGetUseUnderline, Arg::Pointer(target.addr))
    }

    fn set_use_underline(&self, use_underline: bool) -> (call: Call) {
        let target: ConstPtr<C_GtkButton> = self.as_ptr().cast();
        Call::binary(
            Symbol::GtkButtonSetUseUnderline,
            Arg::Pointer(target.addr),
            Arg::Int(to_gboolean(use_underline)),
        )
    }

    fn set_focus_on_click(&self, focus_on_click: bool) -> (call: Call) {
        let target: ConstPtr<C_GtkButton> = self.as_ptr().cast();
        Call::binary(
            Symbol::GtkButtonSetFocusOnClick,
            Arg::Pointer(target.addr),
            Arg::Int(to_gboolean(focus_on_click)),
        )
    }

    fn get_focus_on_click(&self) -> (call: Call) {
        let target: ConstPtr<C_GtkButton> = self.as_ptr().cast();
        Call::unary(Symbol::GtkButtonGetFocusOnClick, Arg::Pointer(target.addr))
    }

    fn set_image<W: AsPtr>(&self, image: &W) -> (call: Call)
        where
            W::Inner: IsA<C_GtkWidget>,
    {
        let target: ConstPtr<C_GtkButton> = self.as_ptr().cast();
        let image_ptr: ConstPtr<C_GtkWidget> = image.as_ptr().cast();
        Call::binary(
            Symbol::GtkButtonSetImage,
            Arg::Pointer(target.addr),
            Arg::Pointer(image_ptr.addr),
        )
    }

    fn set_image_position(&self, position: PositionType) -> (call: Call) {
        let target: ConstPtr<C_GtkButton> = self.as_ptr().cast();
        Call::binary(
            Symbol::GtkButtonSetImagePosition,
            Arg::Pointer(target.addr),
            Arg::Int(position.to_glib()),
        )
    }

    fn get_image_position(&self) -> (call: Call) {
        let target: ConstPtr<C_GtkButton> = self.as_ptr().cast();
        Call::unary(Symbol::GtkButtonGetImagePosition, Arg::Pointer(target.addr))
    }

    fn set_always_show_image(&self, always_show: bool) -> (call: Call) {
        let target: ConstPtr<C_GtkButton> = self.as_ptr().cast();
        Call::binary(
            Symbol::GtkButtonSetAlwaysShowImage,
            Arg::Pointer(target.addr),
            Arg::Int(to_gboolean(always_show)),
        )
    }

    fn get_always_show_image(&self) -> (call: Call) {
        let target: ConstPtr<C_GtkButton> = self.as_ptr().cast();
        Call::unary(Symbol::GtkButtonGetAlwaysShowImage, Arg::Pointer(target.addr))
    }
}

} // verus!
