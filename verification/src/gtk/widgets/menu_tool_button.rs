//! A tool item that holds a button and an arrow that opens a menu.

use crate::ffi::{Arg, ArgView, Call, CallView, Symbol};
use crate::glib::traits::{AsPtr, Cast, ConstPtr, IsA, Recipe};
use crate::glib::translate::{has_nul, CStrBuf};
use crate::gtk::ffi::{C_GtkMenuToolButton, C_GtkWidget};
use crate::gtk::widgets::toolbutton::{icon_arg, label_arg};
use vstd::prelude::*;
use vstd::string::StringSliceAdditionalSpecFns;

verus! {

/// The constructors and operations of menu tool buttons.
pub struct MenuToolButton;

impl MenuToolButton {
    /// How a menu tool button is made with an icon widget and a label, each of
    /// which may be left out.
    pub fn new<W: AsPtr>(icon_widget: Option<&W>, label: Option<&str>) -> (recipe: Recipe<
        C_GtkMenuToolButton,
    >)
        where
            W::Inner: IsA<C_GtkWidget>,
        requires
            label matches Some(l) ==> !has_nul(l.spec_bytes()),
        ensures
            recipe.creation() == (CallView {
                symbol: Symbol::GtkMenuToolButtonNew,
                args: seq![icon_arg(icon_widget), label_arg(label)],
            }),
            recipe.pending() == Seq::<CallView>::empty(),
    {
        let icon = match icon_widget {
            Some(i) => {
                let widget: ConstPtr<C_GtkWidget> = i.as_ptr().cast();
                Arg::Pointer(widget.addr)
            },
            None => Arg::Pointer(0),
        };
        let text = match label {
            Some(l) => Arg::Str(CStrBuf::from_str(l)),
            None => Arg::Pointer(0),
        };
        Recipe::plain(Call::binary(Symbol::GtkMenuToolButtonNew, icon, text))
    }

    /// How a menu tool button is made from the stock item `stock_id`.
    pub fn new_from_stock(stock_id: &str) -> (recipe: Recipe<C_GtkMenuToolButton>)
        requires
            !has_nul(stock_id.spec_bytes()),
        ensures
            recipe.creation() == (CallView {
                symbol: Symbol::GtkMenuToolButtonNewFromStock,
                args: seq![ArgView::Str(stock_id.spec_bytes())],
            }),
            recipe.pending() == Seq::<CallView>::empty(),
    {
        Recipe::plain(
            Call::unary(
                Symbol::GtkMenuToolButtonNewFromStock,
                Arg::Str(CStrBuf::from_str(stock_id)),
            ),
        )
    }

    /// The call that sets the plain text of the tooltip on the arrow.
    pub fn set_arrow_tooltip_text<B: AsPtr>(button: &B, text: &str) -> (call: Call)
        where
            B::Inner: IsA<C_GtkMenuToolButton>,
        requires
            !has_nul(text.spec_bytes()),
        ensures
            call@ == (CallView {
                symbol: Symbol::GtkMenuToolButtonSetArrowTooltipText,
                args: seq![ArgView::Pointer(button.addr()), ArgView::Str(text.spec_bytes())],
            }),
    {
        let target: ConstPtr<C_GtkMenuToolButton> = button.as_ptr().cast();
        Call::binary(
            Symbol::GtkMenuToolButtonSetArrowTooltipText,
            Arg::Pointer(target.addr),
            Arg::Str(CStrBuf::from_str(text)),
        )
    }

    /// The call that sets the tooltip on the arrow from markup.
    pub fn set_arrow_tooltip_markup<B: AsPtr>(button: &B, markup: &str) -> (call: Call)
        where
            B::Inner: IsA<C_GtkMenuToolButton>,
        requires
            !has_nul(markup.spec_bytes()),
        ensures
            call@ == (CallView {
                symbol: Symbol::GtkMenuToolButtonSetArrowTooltipMarkup,
                args: seq![ArgView::Pointer(button.addr()), ArgView::Str(markup.spec_bytes())],
            }),
    {
        let target: ConstPtr<C_GtkMenuToolButton> = button.as_ptr().cast();
        Call::binary(
            Symbol::GtkMenuToolButtonSetArrowTooltipMarkup,
            Arg::Pointer(target.addr),
            Arg::Str(CStrBuf::from_str(markup)),
        )
    }
}

} // verus!
