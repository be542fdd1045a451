//! Boxes, which lay their children out in a row or a column.

use crate::ffi::{Arg, ArgView, Call, CallView, Symbol};
use crate::glib::traits::{AsPtr, Recipe};
use crate::gtk::enums::Orientation;
use crate::gtk::ffi::C_GtkBox;
use libc::c_int;
use vstd::prelude::*;

verus! {

/// The capability set of a box: the handles whose tag is related to its
/// class. It has no operation of its own yet.
pub trait BoxTrait: AsPtr {

}

impl<T: AsPtr> BoxTrait for T {

}

/// The constructors of boxes.
pub struct Box_;

impl Box_ {
    /// How a box is made that lays out along `orientation` and leaves
    /// `spacing` pixels between its children.
    pub fn new(orientation: Orientation, spacing: i32) -> (recipe: Recipe<C_GtkBox>)
        ensures
            recipe.creation() == (CallView {
                symbol: Symbol::GtkBoxNew,
                args: seq![ArgView::Int(orientation.spec_to_glib()), ArgView::Int(spacing)],
            }),
            recipe.pending() == Seq::<CallView>::empty(),
    {
        let gap: c_int = spacing;
        Recipe::plain(
            Call::binary(Symbol::GtkBoxNew, Arg::Int(orientation.to_glib()), Arg::Int(gap)),
        )
    }
}

} // verus!
