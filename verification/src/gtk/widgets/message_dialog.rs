//! Message dialogs made with one of the prebuilt sets of buttons.

use crate::ffi::{Arg, ArgView, Call, CallView, Symbol};
use crate::glib::traits::{AsPtr, Cast, ConstPtr, IsA, Recipe};
use crate::glib::translate::{has_nul, CStrBuf};
use crate::gtk::dialog::{parent_addr, pointer_or_null, set_markup_call};
use crate::gtk::enums::{ButtonsType, DialogFlags, MessageType};
use crate::gtk::ffi::{C_GtkMessageDialog, C_GtkWindow};
use vstd::prelude::*;
use vstd::string::StringSliceAdditionalSpecFns;

verus! {

/// The call that makes a message dialog without a text: the format is the null
/// pointer.
pub open spec fn message_dialog_new_call(
    parent: Option<usize>,
    flags: DialogFlags,
    message_type: MessageType,
    buttons: ButtonsType,
) -> CallView {
    CallView {
        symbol: Symbol::GtkMessageDialogNew,
        args: seq![
            ArgView::Pointer(pointer_or_null(parent)),
            ArgView::UInt(flags.spec_to_glib()),
            ArgView::Int(message_type.spec_to_glib()),
            ArgView::Int(buttons.spec_to_glib()),
            ArgView::Pointer(0),
        ],
    }
}

/// The constructors and operations of message dialogs.
pub struct MessageDialog;

impl MessageDialog {
    /// How a message dialog without a text is made. Completing the recipe gives
    /// no dialog where the constructor returned the null pointer.
    pub fn new<W: AsPtr>(
        parent: Option<&W>,
        flags: DialogFlags,
        message_type: MessageType,
        buttons: ButtonsType,
    ) -> (recipe: Recipe<C_GtkMessageDialog>)
        where
            W::Inner: IsA<C_GtkWindow>,
        ensures
            recipe.creation() == message_dialog_new_call(
                parent_addr(parent),
                flags,
                message_type,
                buttons,
            ),
            recipe.pending() == Seq::<CallView>::empty(),
    {
        let parent_ptr = match parent {
            Some(p) => {
                let window: ConstPtr<C_GtkWindow> = p.as_ptr().cast();
                window.addr
            },
            None => 0,
        };
        let mut args: Vec<Arg> = Vec::new();
        args.push(Arg::Pointer(parent_ptr));
        args.push(Arg::UInt(flags.to_glib()));
        args.push(Arg::Int(message_type.to_glib()));
        args.push(Arg::Int(buttons.to_glib()));
        args.push(Arg::Pointer(0));
        let create = Call::from_args(Symbol::GtkMessageDialogNew, args);
        assert(create@.args =~= message_dialog_new_call(
            parent_addr(parent),
            flags,
            message_type,
            buttons,
        ).args);
        Recipe::plain(create)
    }

    /// How a message dialog is made whose text is `markup`: it is made without
    /// a text, and gets its text once it exists.
    pub fn new_with_markup<W: AsPtr>(
        parent: Option<&W>,
        flags: DialogFlags,
        message_type: MessageType,
        buttons: ButtonsType,
        markup: &str,
    ) -> (recipe: Recipe<C_GtkMessageDialog>)
        where
            W::Inner: IsA<C_GtkWindow>,
        requires
            !has_nul(markup.spec_bytes()),
        ensures
            recipe.creation() == message_dialog_new_call(
                parent_addr(parent),
                flags,
                message_type,
                buttons,
            ),
            recipe.pending() == seq![set_markup_call(0, markup.spec_bytes())],
    {
        let m = MessageDialog::new(parent, flags, message_type, buttons);
        let recipe = m.followed_by(
            Call::binary(
                Symbol::GtkMessageDialogSetMarkup,
                Arg::Pointer(0),
                Arg::Str(CStrBuf::from_str(markup)),
            ),
        );
        assert(recipe.pending() =~= seq![set_markup_call(0, markup.spec_bytes())]);
        recipe
    }

    /// The call that sets the text of the message dialog from markup.
    pub fn set_markup<D: AsPtr>(dialog: &D, markup: &str) -> (call: Call)
        where
            D::Inner: IsA<C_GtkMessageDialog>,
        requires
            !has_nul(markup.spec_bytes()),
        ensures
            call@ == set_markup_call(dialog.addr(), markup.spec_bytes()),
    {
        let message: ConstPtr<C_GtkMessageDialog> = dialog.as_ptr().cast();
        Call::binary(
            Symbol::GtkMessageDialogSetMarkup,
            Arg::Pointer(message.addr),
            Arg::Str(CStrBuf::from_str(markup)),
        )
    }

    /// The call that asks for the area that holds the text; it returns the
    /// address of a widget that the dialog keeps, or the null pointer.
    pub fn get_message_area<D: AsPtr>(dialog: &D) -> (call: Call)
        where
            D::Inner: IsA<C_GtkMessageDialog>,
        ensures
            call@ == (CallView {
                symbol: Symbol::GtkMessageDialogGetMessageArea,
                args: seq![ArgView::Pointer(dialog.addr())],
            }),
    {
        let message: ConstPtr<C_GtkMessageDialog> = dialog.as_ptr().cast();
        Call::unary(Symbol::GtkMessageDialogGetMessageArea, Arg::Pointer(message.addr))
    }
}

} // verus!
