//! Push buttons.

use crate::ffi::{Arg, ArgView, Call, CallView, Symbol};
use crate::glib::traits::{AsPtr, Recipe};
use crate::glib::translate::{has_nul, CStrBuf};
use crate::gtk::ffi::C_GtkButton;
use vstd::prelude::*;
use vstd::string::StringSliceAdditionalSpecFns;

verus! {

/// The capability set of a button: the handles whose tag is related to its
/// class. It has no operation of its own yet.
pub trait ButtonTrait: AsPtr {

}

impl<T: AsPtr> ButtonTrait for T {

}

/// The constructors of buttons.
pub struct Button;

impl Button {
    /// How a button with the text `label` on it is made. The call owns a
    /// nul-terminated copy of `label`.
    pub fn new_with_label(label: &str) -> (recipe: Recipe<C_GtkButton>)
        requires
            !has_nul(label.spec_bytes()),
        ensures
            recipe.creation() == (CallView {
                symbol: Symbol::GtkButtonNewWithLabel,
                args: seq![ArgView::Str(label.spec_bytes())],
            }),
            recipe.pending() == Seq::<CallView>::empty(),
    {
        let c_str = CStrBuf::from_str(label);
        Recipe::plain(Call::unary(Symbol::GtkButtonNewWithLabel, Arg::Str(c_str)))
    }
}

} // verus!
