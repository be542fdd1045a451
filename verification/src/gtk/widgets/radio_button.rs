//! A button of which one in a group is pressed in.

use crate::ffi::{Arg, ArgView, Call, CallView, Symbol};
use crate::glib::traits::{unref_call, Ptr};
use crate::glib::translate::{has_nul, CStrBuf};
use crate::gtk::ffi::{C_GtkWidget, FFIWidget};
use vstd::prelude::*;
use vstd::string::StringSliceAdditionalSpecFns;

verus! {

/// A handle on a radio button. It either owns the widget, when it was made from
/// what a constructor returned, or is a view of a widget that someone else
/// owns.
#[derive(Debug)]
pub struct RadioButton {
    pointer: Ptr<C_GtkWidget>,
    can_drop: bool,
}

impl RadioButton {
    /// Whether the handle owns the widget.
    pub closed spec fn owns(&self) -> bool {
        self.can_drop
    }

    pub fn can_drop(&self) -> (b: bool)
        ensures
            b == self.owns(),
    {
        self.can_drop
    }

    /// The handle that owns the widget which a constructor returned at
    /// `pointer`; `None` where the constructor failed and returned the null
    /// pointer.
    pub fn check_pointer(pointer: Ptr<C_GtkWidget>) -> (r: Option<RadioButton>)
        ensures
            r is Some <==> pointer.addr != 0,
            r matches Some(w) ==> w.widget_addr() == pointer.addr && w.owns(),
    {
        if pointer.is_null() {
            None
        } else {
            Some(RadioButton { pointer, can_drop: true })
        }
    }

    /// Ends the handle. A handle that owns its widget gives up its one
    /// reference; a view has none to give up.
    pub fn release(self) -> (call: Option<Call>)
        ensures
            call is Some <==> self.owns(),
            call matches Some(c) ==> c@ == unref_call(self.widget_addr()),
    {
        if self.can_drop {
            Some(Call::unary(Symbol::GObjectUnref, Arg::Pointer(self.pointer.addr)))
        } else {
            None
        }
    }

    /// How a radio button in a group of its own is made: the call of its
    /// constructor.
    pub fn new() -> (call: Call)
        ensures
            call@ == (CallView {
                symbol: Symbol::GtkRadioButtonNew,
                args: seq![ArgView::Pointer(0)],
            }),
    {
        Call::unary(Symbol::GtkRadioButtonNew, Arg::Pointer(0))
    }

    /// How a radio button with the text `label` is made, in a group of its own:
    /// the call of its constructor.
    pub fn new_with_label(label: &str) -> (call: Call)
        requires
            !has_nul(label.spec_bytes()),
        ensures
            call@ == (CallView {
                symbol: Symbol::GtkRadioButtonNewWithLabel,
                args: seq![ArgView::Pointer(0), ArgView::Str(label.spec_bytes())],
            }),
    {
        Call::binary(
            Symbol::GtkRadioButtonNewWithLabel,
            Arg::Pointer(0),
            Arg::Str(CStrBuf::from_str(label)),
        )
    }

    /// How a radio button is made whose text `mnemonic` marks its mnemonic key
    /// with an underscore: the call of its constructor.
    pub fn new_with_mnemonic(mnemonic: &str) -> (call: Call)
        requires
            !has_nul(mnemonic.spec_bytes()),
        ensures
            call@ == (CallView {
                symbol: Symbol::GtkRadioButtonNewWithMnemonic,
                args: seq![ArgView::Pointer(0), ArgView::Str(mnemonic.spec_bytes())],
            }),
    {
        Call::binary(
            Symbol::GtkRadioButtonNewWithMnemonic,
            Arg::Pointer(0),
            Arg::Str(CStrBuf::from_str(mnemonic)),
        )
    }

    /// The call that puts the button into the group of `group_source`.
    pub fn join<T: FFIWidget>(&self, group_source: &T) -> (call: Call)
        ensures
            call@ == (CallView {
                symbol: Symbol::GtkRadioButtonJoinGroup,
                args: seq![
                    ArgView::Pointer(self.widget_addr()),
                    ArgView::Pointer(group_source.widget_addr()),
                ],
            }),
    {
        Call::binary(
            Symbol::GtkRadioButtonJoinGroup,
            Arg::Pointer(self.pointer.addr),
            Arg::Pointer(group_source.get_widget().addr),
        )
    }
}

impl FFIWidget for RadioButton {
    closed spec fn widget_addr(&self) -> usize {
        self.pointer.addr
    }

    fn get_widget(&self) -> (p: Ptr<C_GtkWidget>) {
        self.pointer
    }

    /// A view of the widget at `widget`: the handle does not own it.
    fn wrap(widget: Ptr<C_GtkWidget>) -> (r: RadioButton)
        ensures
            !r.owns(),
    {
        RadioButton { pointer: widget, can_drop: false }
    }
}

} // verus!
