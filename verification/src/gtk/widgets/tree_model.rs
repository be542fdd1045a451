//! Tree-shaped data that views show.

use crate::ffi::{Arg, ArgView, Call, CallView, Symbol};
use crate::glib::traits::Ptr;
use crate::gtk::ffi::C_GtkTreeModel;
use vstd::prelude::*;

verus! {

/// A handle on a tree model.
#[derive(Debug)]
pub struct TreeModel {
    pointer: Ptr<C_GtkTreeModel>,
}

impl TreeModel {
    /// The address of the model.
    pub closed spec fn addr(&self) -> usize {
        self.pointer.addr
    }

    /// The call that asks for the flags of the model; it returns a set of
    /// flags.
    pub fn get_flags(&self) -> (call: Call)
        ensures
            call@ == (CallView {
                symbol: Symbol::GtkTreeModelGetFlags,
                args: seq![ArgView::Pointer(self.addr())],
            }),
    {
        Call::unary(Symbol::GtkTreeModelGetFlags, Arg::Pointer(self.pointer.addr))
    }

    /// The call that asks how many columns the model has; it returns a `gint`.
    pub fn get_n_columns(&self) -> (call: Call)
        ensures
            call@ == (CallView {
                symbol: Symbol::GtkTreeModelGetNColumns,
                args: seq![ArgView::Pointer(self.addr())],
            }),
    {
        Call::unary(Symbol::GtkTreeModelGetNColumns, Arg::Pointer(self.pointer.addr))
    }

    /// The call that asks for the type of column `index_`; it returns the
    /// identifier of a type.
    pub fn get_column_type(&self, index_: i32) -> (call: Call)
        ensures
            call@ == (CallView {
                symbol: Symbol::GtkTreeModelGetColumnType,
                args: seq![ArgView::Pointer(self.addr()), ArgView::Int(index_)],
            }),
    {
        Call::binary(
            Symbol::GtkTreeModelGetColumnType,
            Arg::Pointer(self.pointer.addr),
            Arg::Int(index_),
        )
    }

    /// The address of the model.
    pub fn get_pointer(&self) -> (pointer: Ptr<C_GtkTreeModel>)
        ensures
            pointer.addr == self.addr(),
    {
        self.pointer
    }

    /// A handle on the model at `c_treemodel`.
    pub fn wrap_pointer(c_treemodel: Ptr<C_GtkTreeModel>) -> (model: TreeModel)
        ensures
            model.addr() == c_treemodel.addr,
    {
        TreeModel { pointer: c_treemodel }
    }
}

} // verus!
