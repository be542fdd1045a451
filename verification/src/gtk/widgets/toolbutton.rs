//! A tool item that shows a button.

use crate::ffi::{Arg, ArgView, Call, CallView, Symbol};
use crate::glib::traits::{AsPtr, Cast, ConstPtr, IsA, Recipe};
use crate::glib::translate::{has_nul, CStrBuf};
use crate::gtk::ffi::{C_GtkToolButton, C_GtkWidget};
use vstd::prelude::*;
use vstd::string::StringSliceAdditionalSpecFns;

verus! {

/// The icon widget of a tool button as the constructor gets it: its address, or
/// the null pointer for none.
pub open spec fn icon_arg<W: AsPtr>(icon_widget: Option<&W>) -> ArgView {
    match icon_widget {
        Some(i) => ArgView::Pointer(i.addr()),
        None => ArgView::Pointer(0),
    }
}

/// The label of a tool button as the constructor gets it: a string, or the null
/// pointer for none.
pub open spec fn label_arg(label: Option<&str>) -> ArgView {
    match label {
        Some(l) => ArgView::Str(l.spec_bytes()),
        None => ArgView::Pointer(0),
    }
}

/// The constructors of tool buttons.
pub struct ToolButton;

impl ToolButton {
    /// How a tool button is made with an icon widget and a label, each of which
    /// may be left out.
    pub fn new<W: AsPtr>(icon_widget: Option<&W>, label: Option<&str>) -> (recipe: Recipe<
        C_GtkToolButton,
    >)
        where
            W::Inner: IsA<C_GtkWidget>,
        requires
            label matches Some(l) ==> !has_nul(l.spec_bytes()),
        ensures
            recipe.creation() == (CallView {
                symbol: Symbol::GtkToolButtonNew,
                args: seq![icon_arg(icon_widget), label_arg(label)],
            }),
            recipe.pending() == Seq::<CallView>::empty(),
    {
        let icon = match icon_widget {
            Some(i) => {
                let widget: ConstPtr<C_GtkWidget> = i.as_ptr().cast();
                Arg::Pointer(widget.addr)
            },
            None => Arg::Pointer(0),
        };
        let text = match label {
            Some(l) => Arg::Str(CStrBuf::from_str(l)),
            None => Arg::Pointer(0),
        };
        Recipe::plain(Call::binary(Symbol::GtkToolButtonNew, icon, text))
    }

    /// How a tool button is made from the stock item `stock_id`.
    pub fn new_from_stock(stock_id: &str) -> (recipe: Recipe<C_GtkToolButton>)
        requires
            !has_nul(stock_id.spec_bytes()),
        ensures
            recipe.creation() == (CallView {
                symbol: Symbol::GtkToolButtonNewFromStock,
                args: seq![ArgView::Str(stock_id.spec_bytes())],
            }),
            recipe.pending() == Seq::<CallView>::empty(),
    {
        Recipe::plain(
            Call::unary(Symbol::GtkToolButtonNewFromStock, Arg::Str(CStrBuf::from_str(stock_id))),
        )
    }
}

} // verus!
