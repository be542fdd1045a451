//! Buttons that keep their state.

use crate::ffi::{Arg, ArgView, Call, CallView, Symbol};
use crate::glib::traits::{AsPtr, Cast, ConstPtr, IsA, Recipe};
use crate::glib::translate::{has_nul, CStrBuf};
use crate::glib::{spec_to_gboolean, to_gboolean};
use crate::gtk::ffi::C_GtkToggleButton;
use vstd::prelude::*;
use vstd::string::StringSliceAdditionalSpecFns;

verus! {

/// The operations of a toggle button. Every handle whose tag is related to the
/// toggle-button class has them. What a getter's call returns is a foreign
/// truth value, which [`to_bool`](crate::glib::to_bool) reads.
pub trait ToggleButtonTrait: AsPtr {
    /// The call that sets whether the button is drawn as a separate indicator
    /// and label.
    fn set_mode(&self, draw_indicator: bool) -> (call: Call)
        ensures
            call@ == (CallView {
                symbol: Symbol::GtkToggleButtonSetMode,
                args: seq![
                    ArgView::Pointer(self.addr()),
                    ArgView::Int(spec_to_gboolean(draw_indicator)),
                ],
            }),
    ;

    /// The call that presses the button in or lets it out.
    fn set_active(&self, is_active: bool) -> (call: Call)
        ensures
            call@ == (CallView {
                symbol: Symbol::GtkToggleButtonSetActive,
                args: seq![
                    ArgView::Pointer(self.addr()),
                    ArgView::Int(spec_to_gboolean(is_active)),
                ],
            }),
    ;

    /// The call that sets whether the button shows an in-between state.
    fn set_inconsistent(&self, setting: bool) -> (call: Call)
        ensures
            call@ == (CallView {
                symbol: Symbol::GtkToggleButtonSetInconsistent,
                args: seq![ArgView::Pointer(self.addr()), ArgView::Int(spec_to_gboolean(setting))],
            }),
    ;

    /// The call that asks whether the button is drawn as a separate indicator
    /// and label.
    fn get_mode(&self) -> (call: Call)
        ensures
            call@ == (CallView {
                symbol: Symbol::GtkToggleButtonGetMode,
                args: seq![ArgView::Pointer(self.addr())],
            }),
    ;

    /// The call that asks whether the button is pressed in.
    fn get_active(&self) -> (call: Call)
        ensures
            call@ == (CallView {
                symbol: Symbol::GtkToggleButtonGetActive,
                args: seq![ArgView::Pointer(self.addr())],
            }),
    ;

    /// The call that asks whether the button shows an in-between state.
    fn get_inconsistent(&self) -> (call: Call)
        ensures
            call@ == (CallView {
                symbol: Symbol::GtkToggleButtonGetInconsistent,
                args: seq![ArgView::Pointer(self.addr())],
            }),
    ;

    /// The call that emits the `toggled` signal on the button.
    fn toggled(&self) -> (call: Call)
        ensures
            call@ == (CallView {
                symbol: Symbol::GtkToggleButtonToggled,
                args: seq![ArgView::Pointer(self.addr())],
            }),
    ;
}

impl<T: AsPtr> ToggleButtonTrait for T where T::Inner: IsA<C_GtkToggleButton> {
    fn set_mode(&self, draw_indicator: bool) -> (call: Call) {
        let button: ConstPtr<C_GtkToggleButton> = self.as_ptr().cast();
        Call::binary(
            Symbol::GtkToggleButtonSetMode,
            Arg::Pointer(button.addr),
            Arg::Int(to_gboolean(draw_indicator)),
        )
    }

    fn set_active(&self, is_active: bool) -> (call: Call) {
        let button: ConstPtr<C_GtkToggleButton> = self.as_ptr().cast();
        Call::binary(
            Symbol::GtkToggleButtonSetActive,
            Arg::Pointer(button.addr),
            Arg::Int(to_gboolean(is_active)),
        )
    }

    fn set_inconsistent(&self, setting: bool) -> (call: Call) {
        let button: ConstPtr<C_GtkToggleButton> = self.as_ptr().cast();
        Call::binary(
            Symbol::GtkToggleButtonSetInconsistent,
            Arg::Pointer(button.addr),
            Arg::Int(to_gboolean(setting)),
        )
    }

    fn get_mode(&self) -> (call: Call) {
        let button: ConstPtr<C_GtkToggleButton> = self.as_ptr().cast();
        Call::unary(Symbol::GtkToggleButtonGetMode, Arg::Pointer(button.addr))
    }

    fn get_active(&self) -> (call: Call) {
        let button: ConstPtr<C_GtkToggleButton> = self.as_ptr().cast();
        Call::unary(Symbol::GtkToggleButtonGetActive, Arg::Pointer(button.addr))
    }

    fn get_inconsistent(&self) -> (call: Call) {
        let button: ConstPtr<C_GtkToggleButton> = self.as_ptr().cast();
        Call::unary(Symbol::GtkToggleButtonGetInconsistent, Arg::Pointer(button.addr))
    }

    fn toggled(&self) -> (call: Call) {
        let button: ConstPtr<C_GtkToggleButton> = self.as_ptr().cast();
        Call::unary(Symbol::GtkToggleButtonToggled, Arg::Pointer(button.addr))
    }
}

/// The constructors of toggle buttons.
pub struct ToggleButton;

impl ToggleButton {
    /// How a toggle button without a text is made.
    pub fn new() -> (recipe: Recipe<C_GtkToggleButton>)
        ensures
            recipe.creation() == (CallView { symbol: Symbol::GtkToggleButtonNew, args: seq![] }),
            recipe.pending() == Seq::<CallView>::empty(),
    {
        Recipe::plain(Call::nullary(Symbol::GtkToggleButtonNew))
    }

    /// How a toggle button with the text `label` on it is made. The call owns a
    /// nul-terminated copy of `label`.
    pub fn new_with_label(label: &str) -> (recipe: Recipe<C_GtkToggleButton>)
        requires
            !has_nul(label.spec_bytes()),
        ensures
            recipe.creation() == (CallView {
                symbol: Symbol::GtkToggleButtonNewWithLabel,
                args: seq![ArgView::Str(label.spec_bytes())],
            }),
            recipe.pending() == Seq::<CallView>::empty(),
    {
        let c_str = CStrBuf::from_str(label);
        Recipe::plain(Call::unary(Symbol::GtkToggleButtonNewWithLabel, Arg::Str(c_str)))
    }

    /// How a toggle button is made whose text `label` marks its mnemonic key
    /// with an underscore.
    pub fn new_with_mnemonic(label: &str) -> (recipe: Recipe<C_GtkToggleButton>)
        requires
            !has_nul(label.spec_bytes()),
        ensures
            recipe.creation() == (CallView {
                symbol: Symbol::GtkToggleButtonNewWithMnemonic,
                args: seq![ArgView::Str(label.spec_bytes())],
            }),
            recipe.pending() == Seq::<CallView>::empty(),
    {
        let c_str = CStrBuf::from_str(label);
        Recipe::plain(Call::unary(Symbol::GtkToggleButtonNewWithMnemonic, Arg::Str(c_str)))
    }
}

} // verus!
