//! Dialogs: windows that ask a question and hand back a response.

use crate::ffi::{Arg, ArgView, Call, CallView, Symbol};
use crate::glib::traits::{
    all_bound_to, bound_to, call_views, have_receivers, AsPtr, Cast, ConstPtr, IsA, Recipe,
};
use crate::glib::translate::{has_nul, lemma_ascii_no_nul, CStrBuf, FromGlib, ToGlib};
use crate::glib::{spec_to_gboolean, to_gboolean};
use crate::gtk::enums::{DialogFlags, FileChooserAction, MessageType};
use crate::gtk::ffi::{
    C_GtkAboutDialog, C_GtkAppChooserDialog, C_GtkColorChooserDialog, C_GtkDialog,
    C_GtkFileChooserDialog, C_GtkFontChooserDialog, C_GtkMessageDialog,
    C_GtkRecentChooserDialog, C_GtkRecentManager, C_GtkWidget, C_GtkWindow,
};
use libc::c_int;
use vstd::prelude::*;
use vstd::string::StringSliceAdditionalSpecFns;

verus! {

pub const GTK_RESPONSE_NONE: c_int = -1;

pub const GTK_RESPONSE_REJECT: c_int = -2;

pub const GTK_RESPONSE_ACCEPT: c_int = -3;

pub const GTK_RESPONSE_DELETE_EVENT: c_int = -4;

pub const GTK_RESPONSE_OK: c_int = -5;

pub const GTK_RESPONSE_CANCEL: c_int = -6;

pub const GTK_RESPONSE_CLOSE: c_int = -7;

pub const GTK_RESPONSE_YES: c_int = -8;

pub const GTK_RESPONSE_NO: c_int = -9;

pub const GTK_RESPONSE_APPLY: c_int = -10;

pub const GTK_RESPONSE_HELP: c_int = -11;

/// A message dialog made without any of the prebuilt sets of buttons.
pub const GTK_BUTTONS_NONE: c_int = 0;

/// Dialog response
#[derive(Clone, Copy, Debug, Eq, PartialEq, Structural)]
pub enum Response {
    /// Returned if an action widget has no response id, or if the dialog
    /// gets programmatically hidden or destroyed
    NoResponse,
    /// Generic response id, not used by the toolkit's own dialogs
    Reject,
    /// Generic response id, not used by the toolkit's own dialogs
    Accept,
    /// Returned if the dialog is deleted
    DeleteEvent,
    /// Returned by Ok buttons
    Okay,
    /// Returned by Cancel buttons
    Cancel,
    /// Returned by Close buttons
    Close,
    /// Returned by Yes buttons
    Yes,
    /// Returned by No buttons
    No,
    /// Returned by Apply buttons
    Apply,
    /// Returned by Help buttons
    Help,
    /// User-defined variants
    User(u16),
}

impl ToGlib for Response {
    type GlibType = c_int;

    /// The code of the response: a negative number for each of the named
    /// ones, the number itself for a user-defined one.
    open spec fn glib_value(&self) -> c_int {
        match *self {
            Response::NoResponse => GTK_RESPONSE_NONE,
            Response::Reject => GTK_RESPONSE_REJECT,
            Response::Accept => GTK_RESPONSE_ACCEPT,
            Response::DeleteEvent => GTK_RESPONSE_DELETE_EVENT,
            Response::Okay => GTK_RESPONSE_OK,
            Response::Cancel => GTK_RESPONSE_CANCEL,
            Response::Close => GTK_RESPONSE_CLOSE,
            Response::Yes => GTK_RESPONSE_YES,
            Response::No => GTK_RESPONSE_NO,
            Response::Apply => GTK_RESPONSE_APPLY,
            Response::Help => GTK_RESPONSE_HELP,
            Response::User(x) => x as c_int,
        }
    }

    fn to_glib(&self) -> (v: c_int) {
        match *self {
            Response::NoResponse => GTK_RESPONSE_NONE,
            Response::Reject => GTK_RESPONSE_REJECT,
            Response::Accept => GTK_RESPONSE_ACCEPT,
            Response::DeleteEvent => GTK_RESPONSE_DELETE_EVENT,
            Response::Okay => GTK_RESPONSE_OK,
            Response::Cancel => GTK_RESPONSE_CANCEL,
            Response::Close => GTK_RESPONSE_CLOSE,
            Response::Yes => GTK_RESPONSE_YES,
            Response::No => GTK_RESPONSE_NO,
            Response::Apply => GTK_RESPONSE_APPLY,
            Response::Help => GTK_RESPONSE_HELP,
            Response::User(x) => user_code(x),
        }
    }
}

/// The code of a user-defined response.
fn user_code(x: u16) -> (v: c_int)
    ensures
        v == x as c_int,
        0 <= v <= 65535,
{
    x as c_int
}

/// The user-defined response with the code `val`.
fn user_response(val: c_int) -> (x: u16)
    requires
        0 <= val <= 65535,
    ensures
        x as c_int == val,
{
    val as u16
}

impl FromGlib for Response {
    type GlibType = c_int;

    /// The response with the code `val`: the named one that has it, a
    /// user-defined one for 0 to 65535, and no response for any other
    /// number.
    open spec fn host_value(val: c_int) -> Response {
        if val == GTK_RESPONSE_NONE {
            Response::NoResponse
        } else if val == GTK_RESPONSE_REJECT {
            Response::Reject
        } else if val == GTK_RESPONSE_ACCEPT {
            Response::Accept
        } else if val == GTK_RESPONSE_DELETE_EVENT {
            Response::DeleteEvent
        } else if val == GTK_RESPONSE_OK {
            Response::Okay
        } else if val == GTK_RESPONSE_CANCEL {
            Response::Cancel
        } else if val == GTK_RESPONSE_CLOSE {
            Response::Close
        } else if val == GTK_RESPONSE_YES {
            Response::Yes
        } else if val == GTK_RESPONSE_NO {
            Response::No
        } else if val == GTK_RESPONSE_APPLY {
            Response::Apply
        } else if val == GTK_RESPONSE_HELP {
            Response::Help
        } else if 0 <= val <= 65535 {
            Response::User(val as u16)
        } else {
            Response::NoResponse
        }
    }

    fn from_glib(val: c_int) -> (r: Response) {
        match val {
            GTK_RESPONSE_NONE => Response::NoResponse,
            GTK_RESPONSE_REJECT => Response::Reject,
            GTK_RESPONSE_ACCEPT => Response::Accept,
            GTK_RESPONSE_DELETE_EVENT => Response::DeleteEvent,
            GTK_RESPONSE_OK => Response::Okay,
            GTK_RESPONSE_CANCEL => Response::Cancel,
            GTK_RESPONSE_CLOSE => Response::Close,
            GTK_RESPONSE_YES => Response::Yes,
            GTK_RESPONSE_NO => Response::No,
            GTK_RESPONSE_APPLY => Response::Apply,
            GTK_RESPONSE_HELP => Response::Help,
            x => if 0 <= x && x <= 65535 {
                Response::User(user_response(x))
            } else {
                Response::NoResponse
            },
        }
    }
}

/// Every response comes back from its code.
pub proof fn lemma_response_round_trip(response: Response)
    ensures
        Response::host_value(response.glib_value()) == response,
{
}

/// Every code that stands for a response other than none comes back from
/// that response; every other code reads as no response.
pub proof fn lemma_code_round_trip(val: c_int)
    ensures
        Response::host_value(val).glib_value() == if -11 <= val <= 65535 {
            val
        } else {
            GTK_RESPONSE_NONE
        },
{
}

/// A cheap conversion from a reference to a reference.
pub trait AsRef<T: ?Sized> {
    /// What the value is viewed as.
    spec fn viewed(&self) -> &T;

    fn as_ref(&self) -> (r: &T)
        ensures
            r == self.viewed(),
    ;
}

impl<'a, T: ?Sized, U: ?Sized> AsRef<U> for &'a T where T: AsRef<U> {
    open spec fn viewed(&self) -> &U {
        <T as AsRef<U>>::viewed(*self)
    }

    fn as_ref(&self) -> &U {
        <T as AsRef<U>>::as_ref(*self)
    }
}

impl AsRef<str> for str {
    open spec fn viewed(&self) -> &str {
        self
    }

    fn as_ref(&self) -> &str {
        self
    }
}

impl<T> AsRef<[T]> for [T] {
    open spec fn viewed(&self) -> &[T] {
        self
    }

    fn as_ref(&self) -> &[T] {
        self
    }
}

/// The buttons of one predefined combination.
pub const OK: [(&'static str, Response); 1] = [("Ok", Response::Okay)];

/// The buttons of one predefined combination.
pub const CLOSE: [(&'static str, Response); 1] = [("Close", Response::Close)];

/// The buttons of one predefined combination.
pub const CANCEL: [(&'static str, Response); 1] = [("Cancel", Response::Cancel)];

/// The buttons of one predefined combination.
pub const CANCEL_OK: [(&'static str, Response); 2] = [
    ("Cancel", Response::Cancel),
    ("Ok", Response::Okay),
];

/// The buttons of one predefined combination.
pub const NO_YES: [(&'static str, Response); 2] = [("No", Response::No), ("Yes", Response::Yes)];

impl AsRef<[(&'static str, Response)]> for Buttons {
    open spec fn viewed(&self) -> &[(&'static str, Response)] {
        match *self {
            Buttons::Okay => &OK,
            Buttons::Close => &CLOSE,
            Buttons::Cancel => &CANCEL,
            Buttons::YesNo => &NO_YES,
            Buttons::OkCancel => &CANCEL_OK,
        }
    }

    fn as_ref(&self) -> (r: &[(&'static str, Response)])
        ensures
            r@ == self.spec_pairs(),
            no_nul_texts(r@),
    {
        proof {
            lemma_button_texts();
        }
        match *self {
            Buttons::Okay => &OK,
            Buttons::Close => &CLOSE,
            Buttons::Cancel => &CANCEL,
            Buttons::YesNo => &NO_YES,
            Buttons::OkCancel => &CANCEL_OK,
        }
    }
}

/// Whether none of the texts holds a nul byte.
pub open spec fn no_nul_texts<'a>(buttons: Seq<(&'a str, Response)>) -> bool {
    forall|i: int| 0 <= i < buttons.len() ==> !has_nul((#[trigger] buttons[i]).0.spec_bytes())
}

/// The call that puts a button with the text `text` at the end of the
/// dialog's action area; pressing it gives `response`. The call returns the
/// address of the button.
pub open spec fn add_button_call(dialog: usize, text: Seq<u8>, response: Response) -> CallView {
    CallView {
        symbol: Symbol::GtkDialogAddButton,
        args: seq![
            ArgView::Pointer(dialog),
            ArgView::Str(text),
            ArgView::Int(response.glib_value()),
        ],
    }
}

/// One call of [`add_button_call`] for each of `buttons`, first to last.
pub open spec fn add_buttons_calls<'a>(dialog: usize, buttons: Seq<(&'a str, Response)>) -> Seq<
    CallView,
> {
    Seq::new(
        buttons.len(),
        |i: int| add_button_call(dialog, buttons[i].0.spec_bytes(), buttons[i].1),
    )
}

/// The call that sets the text of a message dialog from markup.
pub open spec fn set_markup_call(dialog: usize, markup: Seq<u8>) -> CallView {
    CallView {
        symbol: Symbol::GtkMessageDialogSetMarkup,
        args: seq![ArgView::Pointer(dialog), ArgView::Str(markup)],
    }
}

/// Builds the calls that add `buttons` to the dialog at `dialog`.
fn button_calls<'a>(dialog: usize, buttons: &[(&'a str, Response)]) -> (calls: Vec<Call>)
    requires
        no_nul_texts(buttons@),
    ensures
        call_views(calls@) == add_buttons_calls(dialog, buttons@),
        have_receivers(call_views(calls@)),
{
    let mut calls: Vec<Call> = Vec::new();
    let mut i: usize = 0;
    while i < buttons.len()
        invariant
            i <= buttons.len(),
            no_nul_texts(buttons@),
            call_views(calls@) == add_buttons_calls(dialog, buttons@).take(i as int),
        decreases buttons.len() - i,
    {
        let item = &buttons[i];
        let call = Call::ternary(
            Symbol::GtkDialogAddButton,
            Arg::Pointer(dialog),
            Arg::Str(CStrBuf::from_str(item.0)),
            Arg::Int(item.1.to_glib()),
        );
        let ghost before = call_views(calls@);
        assert(call@ == add_buttons_calls(dialog, buttons@)[i as int]);
        calls.push(call);
        assert(call_views(calls@) =~= before.push(add_buttons_calls(dialog, buttons@)[i as int]));
        assert(call_views(calls@) =~= add_buttons_calls(dialog, buttons@).take(i + 1));
        i += 1;
    }
    assert(call_views(calls@) =~= add_buttons_calls(dialog, buttons@));
    calls
}

/// The address of the window that a dialog is made for, if there is one.
pub open spec fn parent_addr<W: AsPtr>(parent: Option<&W>) -> Option<usize> {
    match parent {
        Some(w) => Some(w.addr()),
        None => None,
    }
}

/// The address of the window that a dialog is made for, viewed as a window;
/// null for none.
fn parent_pointer<W: AsPtr>(parent: Option<&W>) -> (p: usize)
    where
        W::Inner: IsA<C_GtkWindow>,
    ensures
        p == pointer_or_null(parent_addr(parent)),
{
    match parent {
        Some(w) => {
            let window: ConstPtr<C_GtkWindow> = w.as_ptr().cast();
            window.addr
        },
        None => 0,
    }
}

/// The operations of a dialog. Every handle whose tag is related to the
/// dialog class has them.
pub trait DialogTrait: AsPtr {
    /// The call that runs the dialog: it blocks in a nested main loop
    /// until the dialog gets a response, and returns the code of that
    /// response, which [`FromGlib::from_glib`] reads.
    fn run(&self) -> (call: Call)
        ensures
            call@ == (CallView {
                symbol: Symbol::GtkDialogRun,
                args: seq![ArgView::Pointer(self.addr())],
            }),
    ;

    /// The call that makes the dialog give `response`.
    fn response(&self, response: Response) -> (call: Call)
        ensures
            call@ == (CallView {
                symbol: Symbol::GtkDialogResponse,
                args: seq![ArgView::Pointer(self.addr()), ArgView::Int(response.glib_value())],
            }),
    ;

    /// The call that adds one button.
    fn add_button(&self, button_text: &str, response: Response) -> (call: Call)
        requires
            !has_nul(button_text.spec_bytes()),
        ensures
            call@ == add_button_call(self.addr(), button_text.spec_bytes(), response),
    ;

    /// The calls that add `buttons`, first to last.
    fn add_buttons<'a, B: AsRef<[(&'a str, Response)]>>(&self, buttons: B) -> (calls: Vec<Call>)
        requires
            no_nul_texts(buttons.viewed()@),
        ensures
            call_views(calls@) == add_buttons_calls(self.addr(), buttons.viewed()@),
    ;

    /// The call that adds `child` to the action area; activating it gives
    /// `response`.
    fn add_action_widget<W: AsPtr>(&self, child: &W, response: Response) -> (call: Call)
        where
            W::Inner: IsA<C_GtkWidget>,
        ensures
            call@ == (CallView {
                symbol: Symbol::GtkDialogAddActionWidget,
                args: seq![
                    ArgView::Pointer(self.addr()),
                    ArgView::Pointer(child.addr()),
                    ArgView::Int(response.glib_value()),
                ],
            }),
    ;

    /// The call that makes the widget for `response` the default one.
    fn set_default_response(&self, response: Response) -> (call: Call)
        ensures
            call@ == (CallView {
                symbol: Symbol::GtkDialogSetDefaultResponse,
                args: seq![ArgView::Pointer(self.addr()), ArgView::Int(response.glib_value())],
            }),
    ;

    /// The call that makes the widgets for `response` sensitive or not.
    fn set_response_sensitive(&self, response: Response, setting: bool) -> (call: Call)
        ensures
            call@ == (CallView {
                symbol: Symbol::GtkDialogSetResponseSensitive,
                args: seq![
                    ArgView::Pointer(self.addr()),
                    ArgView::Int(response.glib_value()),
                    ArgView::Int(spec_to_gboolean(setting)),
                ],
            }),
    ;

    /// The call that asks for the response of `widget`; it returns the
    /// code of a response.
    fn get_response_for_widget<W: AsPtr>(&self, widget: &W) -> (call: Call)
        where
            W::Inner: IsA<C_GtkWidget>,
        ensures
            call@ == (CallView {
                symbol: Symbol::GtkDialogGetResponseForWidget,
                args: seq![ArgView::Pointer(self.addr()), ArgView::Pointer(widget.addr())],
            }),
    ;

    /// The call that asks for the widget of `response`; it returns the
    /// address of a widget that the dialog keeps, or the null pointer.
    fn get_widget_for_reponse(&self, response: Response) -> (call: Call)
        ensures
            call@ == (CallView {
                symbol: Symbol::GtkDialogGetWidgetForResponse,
                args: seq![ArgView::Pointer(self.addr()), ArgView::Int(response.glib_value())],
            }),
    ;

    /// The call that asks for the action area; it returns the address of a
    /// widget that the dialog keeps, or the null pointer.
    fn get_action_area(&self) -> (call: Call)
        ensures
            call@ == (CallView {
                symbol: Symbol::GtkDialogGetActionArea,
                args: seq![ArgView::Pointer(self.addr())],
            }),
    ;

    /// The call that asks for the content area; it returns the address of
    /// a widget that the dialog keeps, or the null pointer.
    fn get_content_area(&self) -> (call: Call)
        ensures
            call@ == (CallView {
                symbol: Symbol::GtkDialogGetContentArea,
                args: seq![ArgView::Pointer(self.addr())],
            }),
    ;

    /// The call that asks for the header bar; it returns the address of a
    /// widget that the dialog keeps, or the null pointer.
    fn get_header_bar(&self) -> (call: Call)
        ensures
            call@ == (CallView {
                symbol: Symbol::GtkDialogGetHeaderBar,
                args: seq![ArgView::Pointer(self.addr())],
            }),
    ;
}

impl<T: AsPtr> DialogTrait for T where T::Inner: IsA<C_GtkDialog> {
    fn run(&self) -> (call: Call) {
        let dialog: ConstPtr<C_GtkDialog> = self.as_ptr().cast();
        Call::unary(Symbol::GtkDialogRun, Arg::Pointer(dialog.addr))
    }

    fn response(&self, response: Response) -> (call: Call) {
        let dialog: ConstPtr<C_GtkDialog> = self.as_ptr().cast();
        Call::binary(
            Symbol::GtkDialogResponse,
            Arg::Pointer(dialog.addr),
            Arg::Int(response.to_glib()),
        )
    }

    fn add_button(&self, button_text: &str, response: Response) -> (call: Call) {
        let dialog: ConstPtr<C_GtkDialog> = self.as_ptr().cast();
        Call::ternary(
            Symbol::GtkDialogAddButton,
            Arg::Pointer(dialog.addr),
            Arg::Str(CStrBuf::from_str(button_text)),
            Arg::Int(response.to_glib()),
        )
    }

    fn add_buttons<'a, B: AsRef<[(&'a str, Response)]>>(&self, buttons: B) -> (calls: Vec<Call>) {
        let dialog: ConstPtr<C_GtkDialog> = self.as_ptr().cast();
        button_calls(dialog.addr, buttons.as_ref())
    }

    fn add_action_widget<W: AsPtr>(&self, child: &W, response: Response) -> (call: Call)
        where
            W::Inner: IsA<C_GtkWidget>,
    {
        let dialog: ConstPtr<C_GtkDialog> = self.as_ptr().cast();
        let widget: ConstPtr<C_GtkWidget> = child.as_ptr().cast();
        Call::ternary(
            Symbol::GtkDialogAddActionWidget,
            Arg::Pointer(dialog.addr),
            Arg::Pointer(widget.addr),
            Arg::Int(response.to_glib()),
        )
    }

    fn set_default_response(&self, response: Response) -> (call: Call) {
        let dialog: ConstPtr<C_GtkDialog> = self.as_ptr().cast();
        Call::binary(
            Symbol::GtkDialogSetDefaultResponse,
            Arg::Pointer(dialog.addr),
            Arg::Int(response.to_glib()),
        )
    }

    fn set_response_sensitive(&self, response: Response, setting: bool) -> (call: Call) {
        let dialog: ConstPtr<C_GtkDialog> = self.as_ptr().cast();
        Call::ternary(
            Symbol::GtkDialogSetResponseSensitive,
            Arg::Pointer(dialog.addr),
            Arg::Int(response.to_glib()),
            Arg::Int(to_gboolean(setting)),
        )
    }

    fn get_response_for_widget<W: AsPtr>(&self, widget: &W) -> (call: Call)
        where
            W::Inner: IsA<C_GtkWidget>,
    {
        let dialog: ConstPtr<C_GtkDialog> = self.as_ptr().cast();
        let target: ConstPtr<C_GtkWidget> = widget.as_ptr().cast();
        Call::binary(
            Symbol::GtkDialogGetResponseForWidget,
            Arg::Pointer(dialog.addr),
            Arg::Pointer(target.addr),
        )
    }

    fn get_widget_for_reponse(&self, response: Response) -> (call: Call) {
        let dialog: ConstPtr<C_GtkDialog> = self.as_ptr().cast();
        Call::binary(
            Symbol::GtkDialogGetWidgetForResponse,
            Arg::Pointer(dialog.addr),
            Arg::Int(response.to_glib()),
        )
    }

    fn get_action_area(&self) -> (call: Call) {
        let dialog: ConstPtr<C_GtkDialog> = self.as_ptr().cast();
        Call::unary(Symbol::GtkDialogGetActionArea, Arg::Pointer(dialog.addr))
    }

    fn get_content_area(&self) -> (call: Call) {
        let dialog: ConstPtr<C_GtkDialog> = self.as_ptr().cast();
        Call::unary(Symbol::GtkDialogGetContentArea, Arg::Pointer(dialog.addr))
    }

    fn get_header_bar(&self) -> (call: Call) {
        let dialog: ConstPtr<C_GtkDialog> = self.as_ptr().cast();
        Call::unary(Symbol::GtkDialogGetHeaderBar, Arg::Pointer(dialog.addr))
    }
}

/// Predefined popular button combinations. The cancel button comes before
/// the affirmative one.
#[derive(Clone, Copy, Debug, Eq, PartialEq, Structural)]
pub enum Buttons {
    /// An Ok button
    Okay,
    /// A Close button
    Close,
    /// A Cancel button
    Cancel,
    /// No and Yes buttons
    YesNo,
    /// Cancel and Ok buttons
    OkCancel,
}

impl Buttons {
    /// The buttons of the combination, first to last, each with its text
    /// and the response that it gives.
    pub open spec fn spec_pairs(self) -> Seq<(&'static str, Response)> {
        match self {
            Buttons::Okay => seq![("Ok", Response::Okay)],
            Buttons::Close => seq![("Close", Response::Close)],
            Buttons::Cancel => seq![("Cancel", Response::Cancel)],
            Buttons::YesNo => seq![("No", Response::No), ("Yes", Response::Yes)],
            Buttons::OkCancel => seq![("Cancel", Response::Cancel), ("Ok", Response::Okay)],
        }
    }
}

/// None of the texts on the predefined buttons holds a nul byte.
proof fn lemma_button_texts()
    ensures
        !has_nul("Ok".spec_bytes()),
        !has_nul("Close".spec_bytes()),
        !has_nul("Cancel".spec_bytes()),
        !has_nul("No".spec_bytes()),
        !has_nul("Yes".spec_bytes()),
        !has_nul("%s".spec_bytes()),
        !has_nul("".spec_bytes()),
{
    reveal_strlit("Ok");
    reveal_strlit("Close");
    reveal_strlit("Cancel");
    reveal_strlit("No");
    reveal_strlit("Yes");
    reveal_strlit("%s");
    reveal_strlit("");
    lemma_ascii_no_nul("Ok");
    lemma_ascii_no_nul("Close");
    lemma_ascii_no_nul("Cancel");
    lemma_ascii_no_nul("No");
    lemma_ascii_no_nul("Yes");
    lemma_ascii_no_nul("%s");
    lemma_ascii_no_nul("");
}

/// The call that makes a dialog with a title, for a parent window or for
/// none. The list of buttons in the call is left empty: buttons are added
/// by calls of their own.
pub open spec fn dialog_new_call(title: Seq<u8>, parent: Option<usize>) -> CallView {
    CallView {
        symbol: Symbol::GtkDialogNewWithButtons,
        args: seq![
            ArgView::Str(title),
            ArgView::Pointer(pointer_or_null(parent)),
            ArgView::UInt(DialogFlags::spec_for_parent(parent is Some).spec_to_glib()),
            ArgView::Pointer(0),
        ],
    }
}

/// The address, or the null pointer for none.
pub open spec fn pointer_or_null(addr: Option<usize>) -> usize {
    match addr {
        Some(a) => a,
        None => 0,
    }
}

/// The call that makes a message dialog which shows `message` as it
/// stands: the format is `%s`, so that nothing in the message is taken for
/// a directive. The dialog gets none of the prebuilt sets of buttons.
pub open spec fn message_new_call(
    parent: Option<usize>,
    message_type: MessageType,
    message: Seq<u8>,
) -> CallView {
    CallView {
        symbol: Symbol::GtkMessageDialogNew,
        args: seq![
            ArgView::Pointer(pointer_or_null(parent)),
            ArgView::UInt(DialogFlags::spec_for_parent(parent is Some).spec_to_glib()),
            ArgView::Int(message_type.spec_to_glib()),
            ArgView::Int(GTK_BUTTONS_NONE),
            ArgView::Str("%s".spec_bytes()),
            ArgView::Str(message),
            ArgView::Pointer(0),
        ],
    }
}

/// A call that makes a chooser dialog with a title for a parent window.
pub open spec fn titled_call(symbol: Symbol, title: Seq<u8>, parent: Option<usize>) -> CallView {
    CallView { symbol, args: seq![ArgView::Str(title), ArgView::Pointer(pointer_or_null(parent))] }
}

/// The constructors of generic dialogs.
pub struct Dialog;

impl Dialog {
    /// How an empty dialog is made.
    pub fn new() -> (recipe: Recipe<C_GtkDialog>)
        ensures
            recipe.creation() == (CallView { symbol: Symbol::GtkDialogNew, args: seq![] }),
            recipe.pending() == Seq::<CallView>::empty(),
    {
        Recipe::plain(Call::nullary(Symbol::GtkDialogNew))
    }

    /// How a dialog with a title and buttons is made. With a parent the
    /// dialog is modal and is destroyed with the parent. The buttons are
    /// added one by one after the dialog has been made.
    pub fn with_buttons<'a, W: AsPtr, B: AsRef<[(&'a str, Response)]>>(
        title: &str,
        parent: Option<&W>,
        buttons: B,
    ) -> (recipe: Recipe<C_GtkDialog>)
        where
            W::Inner: IsA<C_GtkWindow>,
        requires
            !has_nul(title.spec_bytes()),
            no_nul_texts(buttons.viewed()@),
        ensures
            recipe.creation() == dialog_new_call(title.spec_bytes(), parent_addr(parent)),
            recipe.pending() == add_buttons_calls(0, buttons.viewed()@),
    {
        let flags = DialogFlags::for_parent(parent.is_some());
        let parent = parent_pointer(parent);
        let create = Call::quaternary(
            Symbol::GtkDialogNewWithButtons,
            Arg::Str(CStrBuf::from_str(title)),
            Arg::Pointer(parent),
            Arg::UInt(flags.to_glib()),
            Arg::Pointer(0),
        );
        let res = Recipe::plain(create);
        res.followed_by_all(button_calls(0, buttons.as_ref()))
    }
}

/// The constructors and operations of message dialogs.
pub struct Message;

impl Message {
    /// How a message dialog is made that shows `message` and has
    /// `buttons`. With a parent the dialog is modal and is destroyed with
    /// the parent.
    pub fn new<'a, W: AsPtr, B: AsRef<[(&'a str, Response)]>>(
        parent: Option<&W>,
        message_type: MessageType,
        buttons: B,
        message: &str,
    ) -> (recipe: Recipe<C_GtkMessageDialog>)
        where
            W::Inner: IsA<C_GtkWindow>,
        requires
            !has_nul(message.spec_bytes()),
            no_nul_texts(buttons.viewed()@),
        ensures
            recipe.creation() == message_new_call(
                parent_addr(parent),
                message_type,
                message.spec_bytes(),
            ),
            recipe.pending() == add_buttons_calls(0, buttons.viewed()@),
    {
        proof {
            lemma_button_texts();
        }
        let ghost wanted = parent;
        let flags = DialogFlags::for_parent(parent.is_some());
        let parent = parent_pointer(parent);
        let mut args: Vec<Arg> = Vec::new();
        args.push(Arg::Pointer(parent));
        args.push(Arg::UInt(flags.to_glib()));
        args.push(Arg::Int(message_type.to_glib()));
        args.push(Arg::Int(GTK_BUTTONS_NONE));
        args.push(Arg::Str(CStrBuf::from_str("%s")));
        args.push(Arg::Str(CStrBuf::from_str(message)));
        args.push(Arg::Pointer(0));
        let create = Call::from_args(Symbol::GtkMessageDialogNew, args);
        assert(create@.args =~= message_new_call(
            parent_addr(wanted),
            message_type,
            message.spec_bytes(),
        ).args);
        let res = Recipe::plain(create);
        res.followed_by_all(button_calls(0, buttons.as_ref()))
    }

    /// How a message dialog is made whose text is `markup`: it is made
    /// with an empty message, gets its buttons, and then its text.
    pub fn with_markup<'a, W: AsPtr, B: AsRef<[(&'a str, Response)]>>(
        parent: Option<&W>,
        message_type: MessageType,
        buttons: B,
        markup: &str,
    ) -> (recipe: Recipe<C_GtkMessageDialog>)
        where
            W::Inner: IsA<C_GtkWindow>,
        requires
            !has_nul(markup.spec_bytes()),
            no_nul_texts(buttons.viewed()@),
        ensures
            recipe.creation() == message_new_call(
                parent_addr(parent),
                message_type,
                "".spec_bytes(),
            ),
            recipe.pending() == add_buttons_calls(0, buttons.viewed()@).push(
                set_markup_call(0, markup.spec_bytes()),
            ),
    {
        proof {
            lemma_button_texts();
        }
        let res = Message::new(parent, message_type, buttons, "");
        res.followed_by(
            Call::binary(
                Symbol::GtkMessageDialogSetMarkup,
                Arg::Pointer(0),
                Arg::Str(CStrBuf::from_str(markup)),
            ),
        )
    }

    /// The call that sets the text of the message dialog from markup.
    pub fn set_markup<D: AsPtr>(dialog: &D, markup: &str) -> (call: Call)
        where
            D::Inner: IsA<C_GtkMessageDialog>,
        requires
            !has_nul(markup.spec_bytes()),
        ensures
            call@ == set_markup_call(dialog.addr(), markup.spec_bytes()),
    {
        let message: ConstPtr<C_GtkMessageDialog> = dialog.as_ptr().cast();
        Call::binary(
            Symbol::GtkMessageDialogSetMarkup,
            Arg::Pointer(message.addr),
            Arg::Str(CStrBuf::from_str(markup)),
        )
    }

    /// The call that asks for the area that holds the text; it returns the
    /// address of a widget that the dialog keeps, or the null pointer.
    pub fn get_message_area<D: AsPtr>(dialog: &D) -> (call: Call)
        where
            D::Inner: IsA<C_GtkMessageDialog>,
        ensures
            call@ == (CallView {
                symbol: Symbol::GtkMessageDialogGetMessageArea,
                args: seq![ArgView::Pointer(dialog.addr())],
            }),
    {
        let message: ConstPtr<C_GtkMessageDialog> = dialog.as_ptr().cast();
        Call::unary(Symbol::GtkMessageDialogGetMessageArea, Arg::Pointer(message.addr))
    }
}

/// The constructor of about dialogs.
pub struct About;

impl About {
    /// How an about dialog is made.
    pub fn new() -> (recipe: Recipe<C_GtkAboutDialog>)
        ensures
            recipe.creation() == (CallView { symbol: Symbol::GtkAboutDialogNew, args: seq![] }),
            recipe.pending() == Seq::<CallView>::empty(),
    {
        Recipe::plain(Call::nullary(Symbol::GtkAboutDialogNew))
    }
}

/// The constructor of dialogs that choose an application.
pub struct AppChooser;

impl AppChooser {
    /// How a dialog is made that chooses an application for files of
    /// `content_type`. With a parent the dialog is modal and is destroyed
    /// with the parent.
    pub fn new_for_content_type<W: AsPtr>(parent: Option<&W>, content_type: &str) -> (recipe:
        Recipe<C_GtkAppChooserDialog>)
        where
            W::Inner: IsA<C_GtkWindow>,
        requires
            !has_nul(content_type.spec_bytes()),
        ensures
            recipe.creation() == (CallView {
                symbol: Symbol::GtkAppChooserDialogNewForContentType,
                args: seq![
                    ArgView::Pointer(pointer_or_null(parent_addr(parent))),
                    ArgView::UInt(DialogFlags::spec_for_parent(parent is Some).spec_to_glib()),
                    ArgView::Str(content_type.spec_bytes()),
                ],
            }),
            recipe.pending() == Seq::<CallView>::empty(),
    {
        let flags = DialogFlags::for_parent(parent.is_some());
        let parent = parent_pointer(parent);
        Recipe::plain(
            Call::ternary(
                Symbol::GtkAppChooserDialogNewForContentType,
                Arg::Pointer(parent),
                Arg::UInt(flags.to_glib()),
                Arg::Str(CStrBuf::from_str(content_type)),
            ),
        )
    }
}

/// The constructor of dialogs that choose a colour.
pub struct ColorChooser;

impl ColorChooser {
    /// How a colour chooser dialog with a title is made.
    pub fn new<W: AsPtr>(title: &str, parent: Option<&W>) -> (recipe: Recipe<
        C_GtkColorChooserDialog,
    >)
        where
            W::Inner: IsA<C_GtkWindow>,
        requires
            !has_nul(title.spec_bytes()),
        ensures
            recipe.creation() == titled_call(
                Symbol::GtkColorChooserDialogNew,
                title.spec_bytes(),
                parent_addr(parent),
            ),
            recipe.pending() == Seq::<CallView>::empty(),
    {
        let parent = parent_pointer(parent);
        Recipe::plain(
            Call::binary(
                Symbol::GtkColorChooserDialogNew,
                Arg::Str(CStrBuf::from_str(title)),
                Arg::Pointer(parent),
            ),
        )
    }
}

/// The constructor of dialogs that choose a file.
pub struct FileChooser;

impl FileChooser {
    /// How a file chooser dialog with a title and buttons is made, for the
    /// purpose `action`.
    pub fn new<'a, W: AsPtr, B: AsRef<[(&'a str, Response)]>>(
        title: &str,
        parent: Option<&W>,
        action: FileChooserAction,
        buttons: B,
    ) -> (recipe: Recipe<C_GtkFileChooserDialog>)
        where
            W::Inner: IsA<C_GtkWindow>,
        requires
            !has_nul(title.spec_bytes()),
            no_nul_texts(buttons.viewed()@),
        ensures
            recipe.creation() == (CallView {
                symbol: Symbol::GtkFileChooserDialogNew,
                args: seq![
                    ArgView::Str(title.spec_bytes()),
                    ArgView::Pointer(pointer_or_null(parent_addr(parent))),
                    ArgView::Int(action.spec_to_glib()),
                    ArgView::Pointer(0),
                ],
            }),
            recipe.pending() == add_buttons_calls(0, buttons.viewed()@),
    {
        let parent = parent_pointer(parent);
        let res = Recipe::plain(
            Call::quaternary(
                Symbol::GtkFileChooserDialogNew,
                Arg::Str(CStrBuf::from_str(title)),
                Arg::Pointer(parent),
                Arg::Int(action.to_glib()),
                Arg::Pointer(0),
            ),
        );
        res.followed_by_all(button_calls(0, buttons.as_ref()))
    }
}

/// The constructor of dialogs that choose a font.
pub struct FontChooser;

impl FontChooser {
    /// How a font chooser dialog with a title is made.
    pub fn new<W: AsPtr>(title: &str, parent: Option<&W>) -> (recipe: Recipe<
        C_GtkFontChooserDialog,
    >)
        where
            W::Inner: IsA<C_GtkWindow>,
        requires
            !has_nul(title.spec_bytes()),
        ensures
            recipe.creation() == titled_call(
                Symbol::GtkFontChooserDialogNew,
                title.spec_bytes(),
                parent_addr(parent),
            ),
            recipe.pending() == Seq::<CallView>::empty(),
    {
        let parent = parent_pointer(parent);
        Recipe::plain(
            Call::binary(
                Symbol::GtkFontChooserDialogNew,
                Arg::Str(CStrBuf::from_str(title)),
                Arg::Pointer(parent),
            ),
        )
    }
}

/// The constructors of dialogs that choose a recently used file.
pub struct RecentChooser;

impl RecentChooser {
    /// How a recent chooser dialog with a title and buttons is made.
    pub fn new<'a, W: AsPtr, B: AsRef<[(&'a str, Response)]>>(
        title: &str,
        parent: Option<&W>,
        buttons: B,
    ) -> (recipe: Recipe<C_GtkRecentChooserDialog>)
        where
            W::Inner: IsA<C_GtkWindow>,
        requires
            !has_nul(title.spec_bytes()),
            no_nul_texts(buttons.viewed()@),
        ensures
            recipe.creation() == (CallView {
                symbol: Symbol::GtkRecentChooserDialogNew,
                args: seq![
                    ArgView::Str(title.spec_bytes()),
                    ArgView::Pointer(pointer_or_null(parent_addr(parent))),
                    ArgView::Pointer(0),
                ],
            }),
            recipe.pending() == add_buttons_calls(0, buttons.viewed()@),
    {
        let parent = parent_pointer(parent);
        let res = Recipe::plain(
            Call::ternary(
                Symbol::GtkRecentChooserDialogNew,
                Arg::Str(CStrBuf::from_str(title)),
                Arg::Pointer(parent),
                Arg::Pointer(0),
            ),
        );
        res.followed_by_all(button_calls(0, buttons.as_ref()))
    }

    /// How a recent chooser dialog is made that takes its list from
    /// `manager`.
    pub fn new_for_manager<'a, W: AsPtr, M: AsPtr, B: AsRef<[(&'a str, Response)]>>(
        title: &str,
        parent: Option<&W>,
        manager: &M,
        buttons: B,
    ) -> (recipe: Recipe<C_GtkRecentChooserDialog>)
        where
            W::Inner: IsA<C_GtkWindow>,
    M::Inner: IsA<C_GtkRecentManager>,
        requires
            !has_nul(title.spec_bytes()),
            no_nul_texts(buttons.viewed()@),
        ensures
            recipe.creation() == (CallView {
                symbol: Symbol::GtkRecentChooserDialogNewForManager,
                args: seq![
                    ArgView::Str(title.spec_bytes()),
                    ArgView::Pointer(pointer_or_null(parent_addr(parent))),
                    ArgView::Pointer(manager.addr()),
                    ArgView::Pointer(0),
                ],
            }),
            recipe.pending() == add_buttons_calls(0, buttons.viewed()@),
    {
        let parent = parent_pointer(parent);
        let recent: ConstPtr<C_GtkRecentManager> = manager.as_ptr().cast();
        let res = Recipe::plain(
            Call::quaternary(
                Symbol::GtkRecentChooserDialogNewForManager,
                Arg::Str(CStrBuf::from_str(title)),
                Arg::Pointer(parent),
                Arg::Pointer(recent.addr),
                Arg::Pointer(0),
            ),
        );
        res.followed_by_all(button_calls(0, buttons.as_ref()))
    }
}

/// Once the dialog exists at `created`, the pending calls of its recipe
/// are the calls that add the same buttons to it.
pub proof fn lemma_buttons_bound<'a>(buttons: Seq<(&'a str, Response)>, created: usize)
    ensures
        all_bound_to(add_buttons_calls(0, buttons), created) == add_buttons_calls(created, buttons),
        forall|markup: Seq<u8>|
            bound_to(#[trigger] set_markup_call(0, markup), created) == set_markup_call(
                created,
                markup,
            ),
{
    assert forall|i: int| 0 <= i < buttons.len() implies bound_to(
        #[trigger] add_buttons_calls(0, buttons)[i],
        created,
    ) == add_buttons_calls(created, buttons)[i] by {
        assert(bound_to(add_buttons_calls(0, buttons)[i], created).args =~= add_buttons_calls(
            created,
            buttons,
        )[i].args);
    }
    assert(all_bound_to(add_buttons_calls(0, buttons), created) =~= add_buttons_calls(
        created,
        buttons,
    ));
    assert forall|markup: Seq<u8>|
        bound_to(#[trigger] set_markup_call(0, markup), created) == set_markup_call(
            created,
            markup,
        ) by {
        assert(bound_to(set_markup_call(0, markup), created).args =~= set_markup_call(
            created,
            markup,
        ).args);
    }
}

} // verus!
