//! Check boxes.

use crate::ffi::{Arg, ArgView, Call, CallView, Symbol};
use crate::glib::traits::{AsPtr, Recipe};
use crate::glib::translate::{has_nul, CStrBuf};
use crate::gtk::ffi::C_GtkCheckButton;
use vstd::prelude::*;
use vstd::string::StringSliceAdditionalSpecFns;

verus! {

/// The capability set of a check button: the handles whose tag is related to
/// its class. It has no operation of its own yet.
pub trait CheckButtonTrait: AsPtr {

}

impl<T: AsPtr> CheckButtonTrait for T {

}

/// The constructors of check buttons.
pub struct CheckButton;

impl CheckButton {
    /// How a check button with the text `label` on it is made. The call owns a
    /// nul-terminated copy of `label`.
    pub fn new_with_label(label: &str) -> (recipe: Recipe<C_GtkCheckButton>)
        requires
            !has_nul(label.spec_bytes()),
        ensures
            recipe.creation() == (CallView {
                symbol: Symbol::GtkCheckButtonNewWithLabel,
                args: seq![ArgView::Str(label.spec_bytes())],
            }),
            recipe.pending() == Seq::<CallView>::empty(),
    {
        let c_str = CStrBuf::from_str(label);
        Recipe::plain(Call::unary(Symbol::GtkCheckButtonNewWithLabel, Arg::Str(c_str)))
    }
}

} // verus!
