//! Widgets that choose from a list that drops down.

use crate::ffi::{Arg, ArgView, Call, CallView, Symbol};
use crate::glib::traits::{AsPtr, Cast, ConstPtr, IsA};
use crate::glib::translate::{has_nul, CStrBuf};
use crate::glib::{spec_to_gboolean, to_gboolean};
use crate::gtk::ffi::C_GtkComboBox;
use vstd::prelude::*;
use vstd::string::StringSliceAdditionalSpecFns;

verus! {

/// The operations of a combo box.
///
/// Every handle whose tag is related to the class has them.
pub trait ComboBoxTrait: AsPtr {
    /// The call that asks for the width at which the list wraps; it returns a
    /// `gint`.
    fn get_wrap_width(&self) -> (call: Call)
        ensures
            call@ == (CallView {
                symbol: Symbol::GtkComboBoxGetWrapWidth,
                args: seq![ArgView::Pointer(self.addr())],
            }),
    ;

    /// The call that sets the width at which the list wraps.
    fn set_wrap_width(&self, width: i32) -> (call: Call)
        ensures
            call@ == (CallView {
                symbol: Symbol::GtkComboBoxSetWrapWidth,
                args: seq![ArgView::Pointer(self.addr()), ArgView::Int(width)],
            }),
    ;

    /// The call that asks which column holds the row spans; it returns a
    /// `gint`.
    fn get_row_span_column(&self) -> (call: Call)
        ensures
            call@ == (CallView {
                symbol: Symbol::GtkComboBoxGetRowSpanColumn,
                args: seq![ArgView::Pointer(self.addr())],
            }),
    ;

    /// The call that sets which column holds the row spans.
    fn set_row_span_column(&self, row_span: i32) -> (call: Call)
        ensures
            call@ == (CallView {
                symbol: Symbol::GtkComboBoxSetRowSpanColumn,
                args: seq![ArgView::Pointer(self.addr()), ArgView::Int(row_span)],
            }),
    ;

    /// The call that asks which column holds the column spans; it returns a
    /// `gint`.
    fn get_column_span_column(&self) -> (call: Call)
        ensures
            call@ == (CallView {
                symbol: Symbol::GtkComboBoxGetColumnSpanColumn,
                args: seq![ArgView::Pointer(self.addr())],
            }),
    ;

    /// The call that sets which column holds the column spans.
    fn set_column_span_column(&self, column_span: i32) -> (call: Call)
        ensures
            call@ == (CallView {
                symbol: Symbol::GtkComboBoxSetColumnSpanColumn,
                args: seq![ArgView::Pointer(self.addr()), ArgView::Int(column_span)],
            }),
    ;

    /// The call that asks for the index of the active item; it returns a
    /// `gint`.
    fn get_active(&self) -> (call: Call)
        ensures
            call@ == (CallView {
                symbol: Symbol::GtkComboBoxGetActive,
                args: seq![ArgView::Pointer(self.addr())],
            }),
    ;

    /// The call that makes the item at index `active` the active one.
    fn set_active(&self, active: i32) -> (call: Call)
        ensures
            call@ == (CallView {
                symbol: Symbol::GtkComboBoxSetActive,
                args: seq![ArgView::Pointer(self.addr()), ArgView::Int(active)],
            }),
    ;

    /// The call that asks which column holds the identifiers; it returns a
    /// `gint`.
    fn get_id_column(&self) -> (call: Call)
        ensures
            call@ == (CallView {
                symbol: Symbol::GtkComboBoxGetIdColumn,
                args: seq![ArgView::Pointer(self.addr())],
            }),
    ;

    /// The call that sets which column holds the identifiers.
    fn set_id_column(&self, id_column: i32) -> (call: Call)
        ensures
            call@ == (CallView {
                symbol: Symbol::GtkComboBoxSetIdColumn,
                args: seq![ArgView::Pointer(self.addr()), ArgView::Int(id_column)],
            }),
    ;

    /// The call that asks for the identifier of the active item; it returns a
    /// string that the combo box keeps, or the null pointer.
    fn get_active_id(&self) -> (call: Call)
        ensures
            call@ == (CallView {
                symbol: Symbol::GtkComboBoxGetActiveId,
                args: seq![ArgView::Pointer(self.addr())],
            }),
    ;

    /// The call that makes the item with the identifier `active_id` the active
    /// one; it returns a truth value that says whether such an item was found.
    fn set_active_id(&self, active_id: &str) -> (call: Call)
        requires
            !has_nul(active_id.spec_bytes()),
        ensures
            call@ == (CallView {
                symbol: Symbol::GtkComboBoxSetActiveId,
                args: seq![ArgView::Pointer(self.addr()), ArgView::Str(active_id.spec_bytes())],
            }),
    ;

    /// The call that asks for the model; it returns the address of a model that
    /// the combo box keeps, or the null pointer.
    fn get_model(&self) -> (call: Call)
        ensures
            call@ == (CallView {
                symbol: Symbol::GtkComboBoxGetModel,
                args: seq![ArgView::Pointer(self.addr())],
            }),
    ;

    /// The call that opens the list.
    fn popup(&self) -> (call: Call)
        ensures
            call@ == (CallView {
                symbol: Symbol::GtkComboBoxPopup,
                args: seq![ArgView::Pointer(self.addr())],
            }),
    ;

    /// The call that closes the list.
    fn popdown(&self) -> (call: Call)
        ensures
            call@ == (CallView {
                symbol: Symbol::GtkComboBoxPopdown,
                args: seq![ArgView::Pointer(self.addr())],
            }),
    ;

    /// The call that asks whether a click gives the combo box the focus; it
    /// returns a truth value.
    fn get_focus_on_click(&self) -> (call: Call)
        ensures
            call@ == (CallView {
                symbol: Symbol::GtkComboBoxGetFocusOnClick,
                args: seq![ArgView::Pointer(self.addr())],
            }),
    ;

    /// The call that sets whether a click gives the combo box the focus.
    fn set_focus_on_click(&self, focus_on_click: bool) -> (call: Call)
        ensures
            call@ == (CallView {
                symbol: Symbol::GtkComboBoxSetFocusOnClick,
                args: seq![
                    ArgView::Pointer(self.addr()),
                    ArgView::Int(spec_to_gboolean(focus_on_click)),
                ],
            }),
    ;

    /// The call that asks whether the combo box has an entry; it returns a
    /// truth value.
    fn get_has_entry(&self) -> (call: Call)
        ensures
            call@ == (CallView {
                symbol: Symbol::GtkComboBoxGetHasEntry,
                args: seq![ArgView::Pointer(self.addr())],
            }),
    ;

    /// The call that sets which column the entry takes its text from.
    fn set_entry_text_column(&self, text_column: i32) -> (call: Call)
        ensures
            call@ == (CallView {
                symbol: Symbol::GtkComboBoxSetEntryTextColumn,
                args: seq![ArgView::Pointer(self.addr()), ArgView::Int(text_column)],
            }),
    ;

    /// The call that asks which column the entry takes its text from; it
    /// returns a `gint`.
    fn get_entry_text_column(&self) -> (call: Call)
        ensures
            call@ == (CallView {
                symbol: Symbol::GtkComboBoxGetEntryTextColumn,
                args: seq![ArgView::Pointer(self.addr())],
            }),
    ;

    /// The call that sets whether the list is as wide as the combo box.
    fn set_popup_fixed_width(&self, fixed: bool) -> (call: Call)
        ensures
            call@ == (CallView {
                symbol: Symbol::GtkComboBoxSetPopupFixedWidth,
                args: seq![ArgView::Pointer(self.addr()), ArgView::Int(spec_to_gboolean(fixed))],
            }),
    ;

    /// The call that asks whether the list is as wide as the combo box; it
    /// returns a truth value.
    fn get_popup_fixed_width(&self) -> (call: Call)
        ensures
            call@ == (CallView {
                symbol: Symbol::GtkComboBoxGetPopupFixedWidth,
                args: seq![ArgView::Pointer(self.addr())],
            }),
    ;
}

impl<T: AsPtr> ComboBoxTrait for T where T::Inner: IsA<C_GtkComboBox> {
    fn get_wrap_width(&self) -> (call: Call) {
        let target: ConstPtr<C_GtkComboBox> = self.as_ptr().cast();
        Call::unary(Symbol::GtkComboBoxGetWrapWidth, Arg::Pointer(target.addr))
    }

    fn set_wrap_width(&self, width: i32) -> (call: Call) {
        let target: ConstPtr<C_GtkComboBox> = self.as_ptr().cast();
        Call::binary(Symbol::GtkComboBoxSetWrapWidth, Arg::Pointer(target.addr), Arg::Int(width))
    }

    fn get_row_span_column(&self) -> (call: Call) {
        let target: ConstPtr<C_GtkComboBox> = self.as_ptr().cast();
        Call::unary(Symbol::GtkComboBoxGetRowSpanColumn, Arg::Pointer(target.addr))
    }

    fn set_row_span_column(&self, row_span: i32) -> (call: Call) {
        let target: ConstPtr<C_GtkComboBox> = self.as_ptr().cast();
        Call::binary(
            Symbol::GtkComboBoxSetRowSpanColumn,
            Arg::Pointer(target.addr),
            Arg::Int(row_span),
        )
    }

    fn get_column_span_column(&self) -> (call: Call) {
        let target: ConstPtr<C_GtkComboBox> = self.as_ptr().cast();
        Call::unary(Symbol::GtkComboBoxGetColumnSpanColumn, Arg::Pointer(target.addr))
    }

    fn set_column_span_column(&self, column_span: i32) -> (call: Call) {
        let target: ConstPtr<C_GtkComboBox> = self.as_ptr().cast();
        Call::binary(
            Symbol::GtkComboBoxSetColumnSpanColumn,
            Arg::Pointer(target.addr),
            Arg::Int(column_span),
        )
    }

    fn get_active(&self) -> (call: Call) {
        let target: ConstPtr<C_GtkComboBox> = self.as_ptr().cast();
        Call::unary(Symbol::GtkComboBoxGetActive, Arg::Pointer(target.addr))
    }

    fn set_active(&self, active: i32) -> (call: Call) {
        let target: ConstPtr<C_GtkComboBox> = self.as_ptr().cast();
        Call::binary(Symbol::GtkComboBoxSetActive, Arg::Pointer(target.addr), Arg::Int(active))
    }

    fn get_id_column(&self) -> (call: Call) {
        let target: ConstPtr<C_GtkComboBox> = self.as_ptr().cast();
        Call::unary(Symbol::GtkComboBoxGetIdColumn, Arg::Pointer(target.addr))
    }

    fn set_id_column(&self, id_column: i32) -> (call: Call) {
        let target: ConstPtr<C_GtkComboBox> = self.as_ptr().cast();
        Call::binary(Symbol::GtkComboBoxSetIdColumn, Arg::Pointer(target.addr), Arg::Int(id_column))
    }

    fn get_active_id(&self) -> (call: Call) {
        let target: ConstPtr<C_GtkComboBox> = self.as_ptr().cast();
        Call::unary(Symbol::GtkComboBoxGetActiveId, Arg::Pointer(target.addr))
    }

    fn set_active_id(&self, active_id: &str) -> (call: Call) {
        let target: ConstPtr<C_GtkComboBox> = self.as_ptr().cast();
        Call::binary(
            Symbol::GtkComboBoxSetActiveId,
            Arg::Pointer(target.addr),
            Arg::Str(CStrBuf::from_str(active_id)),
        )
    }

    fn get_model(&self) -> (call: Call) {
        let target: ConstPtr<C_GtkComboBox> = self.as_ptr().cast();
        Call::unary(Symbol::GtkComboBoxGetModel, Arg::Pointer(target.addr))
    }

    fn popup(&self) -> (call: Call) {
        let target: ConstPtr<C_GtkComboBox> = self.as_ptr().cast();
        Call::unary(Symbol::GtkComboBoxPopup, Arg::Pointer(target.addr))
    }

    fn popdown(&self) -> (call: Call) {
        let target: ConstPtr<C_GtkComboBox> = self.as_ptr().cast();
        Call::unary(Symbol::GtkComboBoxPopdown, Arg::Pointer(target.addr))
    }

    fn get_focus_on_click(&self) -> (call: Call) {
        let target: ConstPtr<C_GtkComboBox> = self.as_ptr().cast();
        Call::unary(Symbol::GtkComboBoxGetFocusOnClick, Arg::Pointer(target.addr))
    }

    fn set_focus_on_click(&self, focus_on_click: bool) -> (call: Call) {
        let target: ConstPtr<C_GtkComboBox> = self.as_ptr().cast();
        Call::binary(
            Symbol::GtkComboBoxSetFocusOnClick,
            Arg::Pointer(target.addr),
            Arg::Int(to_gboolean(focus_on_click)),
        )
    }

    fn get_has_entry(&self) -> (call: Call) {
        let target: ConstPtr<C_GtkComboBox> = self.as_ptr().cast();
        Call::unary(Symbol::GtkComboBoxGetHasEntry, Arg::Pointer(target.addr))
    }

    fn set_entry_text_column(&self, text_column: i32) -> (call: Call) {
        let target: ConstPtr<C_GtkComboBox> = self.as_ptr().cast();
        Call::binary(
            Symbol::GtkComboBoxSetEntryTextColumn,
            Arg::Pointer(target.addr),
            Arg::Int(text_column),
        )
    }

    fn get_entry_text_column(&self) -> (call: Call) {
        let target: ConstPtr<C_GtkComboBox> = self.as_ptr().cast();
        Call::unary(Symbol::GtkComboBoxGetEntryTextColumn, Arg::Pointer(target.addr))
    }

    fn set_popup_fixed_width(&self, fixed: bool) -> (call: Call) {
        let target: ConstPtr<C_GtkComboBox> = self.as_ptr().cast();
        Call::binary(
            Symbol::GtkComboBoxSetPopupFixedWidth,
            Arg::Pointer(target.addr),
            Arg::Int(to_gboolean(fixed)),
        )
    }

    fn get_popup_fixed_width(&self) -> (call: Call) {
        let target: ConstPtr<C_GtkComboBox> = self.as_ptr().cast();
        Call::unary(Symbol::GtkComboBoxGetPopupFixedWidth, Arg::Pointer(target.addr))
    }
}

} // verus!
