use rgtk::ffi::{Arg, Call, Symbol};
use rgtk::glib::traits::{AsPtr, Borrowed, Envelope, FromPtr, Ptr};
use rgtk::glib::translate::{from_glib, CStrBuf, FromGlib, ToGlib};
use rgtk::gtk::dialog::{
    About, AppChooser, AsRef, Buttons, ColorChooser, Dialog, DialogTrait, FileChooser,
    FontChooser, Message, RecentChooser, Response, CANCEL_OK, GTK_RESPONSE_ACCEPT,
    GTK_RESPONSE_APPLY, GTK_RESPONSE_CANCEL, GTK_RESPONSE_CLOSE, GTK_RESPONSE_DELETE_EVENT,
    GTK_RESPONSE_HELP, GTK_RESPONSE_NO, GTK_RESPONSE_NONE, GTK_RESPONSE_OK, GTK_RESPONSE_REJECT,
    GTK_RESPONSE_YES, NO_YES,
};
use rgtk::gtk::enums::{
    ButtonsType, DialogFlags, FileChooserAction, MessageType, GTK_DIALOG_DESTROY_WITH_PARENT,
    GTK_DIALOG_MODAL, GTK_DIALOG_USE_HEADER_BAR,
};
use rgtk::gtk::ffi::{C_GtkButton, C_GtkDialog, C_GtkMessageDialog, C_GtkRecentManager, C_GtkWindow};
use rgtk::gtk::widgets::message_dialog::MessageDialog;

fn text(s: &str) -> Arg {
    Arg::Str(CStrBuf::from_str(s))
}

fn add_button(dialog: usize, label: &str, code: i32) -> Call {
    Call {
        symbol: Symbol::GtkDialogAddButton,
        args: vec![Arg::Pointer(dialog), text(label), Arg::Int(code)],
    }
}

fn window(addr: usize) -> Envelope<C_GtkWindow> {
    Envelope::<C_GtkWindow>::from_floating_ptr(Ptr::new(addr)).0
}

const NO_PARENT: Option<&Envelope<C_GtkWindow>> = None;

#[test]
fn response_codes() {
    let named = [
        (Response::NoResponse, -1),
        (Response::Reject, -2),
        (Response::Accept, -3),
        (Response::DeleteEvent, -4),
        (Response::Okay, -5),
        (Response::Cancel, -6),
        (Response::Close, -7),
        (Response::Yes, -8),
        (Response::No, -9),
        (Response::Apply, -10),
        (Response::Help, -11),
    ];
    for (response, code) in named {
        assert_eq!(response.to_glib(), code);
        assert_eq!(Response::from_glib(code), response);
    }
    assert_eq!(GTK_RESPONSE_NONE, -1);
    assert_eq!(GTK_RESPONSE_REJECT, -2);
    assert_eq!(GTK_RESPONSE_ACCEPT, -3);
    assert_eq!(GTK_RESPONSE_DELETE_EVENT, -4);
    assert_eq!(GTK_RESPONSE_OK, -5);
    assert_eq!(GTK_RESPONSE_CANCEL, -6);
    assert_eq!(GTK_RESPONSE_CLOSE, -7);
    assert_eq!(GTK_RESPONSE_YES, -8);
    assert_eq!(GTK_RESPONSE_NO, -9);
    assert_eq!(GTK_RESPONSE_APPLY, -10);
    assert_eq!(GTK_RESPONSE_HELP, -11);
}

#[test]
fn user_responses_are_their_own_codes() {
    for x in [0u16, 1, 42, 255, 256, 65534, 65535] {
        assert_eq!(Response::User(x).to_glib(), x as i32);
        assert_eq!(Response::from_glib(x as i32), Response::User(x));
    }
}

#[test]
fn codes_outside_the_range_read_as_no_response() {
    for code in [65536, 65537, 1 << 20, i32::MAX, -12, -13, -65536, i32::MIN] {
        assert_eq!(Response::from_glib(code), Response::NoResponse, "{}", code);
    }
}

#[test]
fn every_response_comes_back_from_its_code() {
    let mut all = vec![
        Response::NoResponse,
        Response::Reject,
        Response::Accept,
        Response::DeleteEvent,
        Response::Okay,
        Response::Cancel,
        Response::Close,
        Response::Yes,
        Response::No,
        Response::Apply,
        Response::Help,
    ];
    for x in 0..=u16::MAX {
        all.push(Response::User(x));
    }
    for response in all {
        let back: Response = from_glib(response.to_glib());
        assert_eq!(back, response);
    }
}

#[test]
fn every_code_of_a_response_comes_back() {
    for code in -11..=65535 {
        assert_eq!(Response::from_glib(code).to_glib(), code);
    }
    assert_eq!(Response::from_glib(65536).to_glib(), -1);
    assert_eq!(Response::from_glib(-12).to_glib(), -1);
}

#[test]
fn predefined_buttons() {
    assert_eq!(Buttons::Okay.as_ref(), [("Ok", Response::Okay)]);
    assert_eq!(Buttons::Close.as_ref(), [("Close", Response::Close)]);
    assert_eq!(Buttons::Cancel.as_ref(), [("Cancel", Response::Cancel)]);
    assert_eq!(Buttons::YesNo.as_ref(), [("No", Response::No), ("Yes", Response::Yes)]);
    assert_eq!(
        Buttons::OkCancel.as_ref(),
        [("Cancel", Response::Cancel), ("Ok", Response::Okay)]
    );
    assert_eq!(Buttons::OkCancel.as_ref(), CANCEL_OK);
    assert_eq!(Buttons::YesNo.as_ref(), NO_YES);
    let all = [Buttons::Okay, Buttons::Close, Buttons::Cancel, Buttons::YesNo, Buttons::OkCancel];
    for buttons in all {
        assert!(!buttons.as_ref().is_empty());
    }
}

#[test]
fn the_cancel_button_comes_before_the_affirmative_one() {
    assert_eq!(Buttons::OkCancel.as_ref()[0].1, Response::Cancel);
    assert_eq!(Buttons::OkCancel.as_ref()[1].1, Response::Okay);
    assert_eq!(Buttons::YesNo.as_ref()[0].1, Response::No);
    assert_eq!(Buttons::YesNo.as_ref()[1].1, Response::Yes);
}

#[test]
fn references_view_themselves() {
    let s: &str = AsRef::<str>::as_ref("text");
    assert_eq!(s, "text");
    let items = [1, 2, 3];
    let slice: &[i32] = AsRef::<[i32]>::as_ref(&items[..]);
    assert_eq!(slice, [1, 2, 3]);
    let through: &[(&str, Response)] = AsRef::as_ref(&&Buttons::Okay);
    assert_eq!(through, [("Ok", Response::Okay)]);
}

#[test]
fn dialog_flags() {
    assert_eq!(GTK_DIALOG_MODAL, 1);
    assert_eq!(GTK_DIALOG_DESTROY_WITH_PARENT, 2);
    assert_eq!(GTK_DIALOG_USE_HEADER_BAR, 4);
    let flags = |modal, destroy_with_parent, use_header_bar| DialogFlags {
        modal,
        destroy_with_parent,
        use_header_bar,
    };
    assert_eq!(flags(false, false, false).to_glib(), 0);
    assert_eq!(flags(true, false, false).to_glib(), 1);
    assert_eq!(flags(false, true, false).to_glib(), 2);
    assert_eq!(flags(true, true, false).to_glib(), 3);
    assert_eq!(flags(false, false, true).to_glib(), 4);
    assert_eq!(flags(true, true, true).to_glib(), 7);
    assert_eq!(DialogFlags::for_parent(true), flags(true, true, false));
    assert_eq!(DialogFlags::for_parent(false), flags(false, false, false));
}

#[test]
fn dialog_operations() {
    let dialog = Envelope::<C_GtkDialog>::from_floating_ptr(Ptr::new(0x100)).0;
    let on = |symbol, rest: Vec<Arg>| {
        let mut args = vec![Arg::Pointer(0x100)];
        args.extend(rest);
        Call { symbol, args }
    };
    assert_eq!(dialog.run(), on(Symbol::GtkDialogRun, vec![]));
    assert_eq!(dialog.response(Response::Okay), on(Symbol::GtkDialogResponse, vec![Arg::Int(-5)]));
    assert_eq!(dialog.add_button("Retry", Response::User(7)), add_button(0x100, "Retry", 7));
    assert_eq!(
        dialog.set_default_response(Response::Cancel),
        on(Symbol::GtkDialogSetDefaultResponse, vec![Arg::Int(-6)])
    );
    assert_eq!(
        dialog.set_response_sensitive(Response::Apply, true),
        on(Symbol::GtkDialogSetResponseSensitive, vec![Arg::Int(-10), Arg::Int(1)])
    );
    assert_eq!(
        dialog.set_response_sensitive(Response::Apply, false),
        on(Symbol::GtkDialogSetResponseSensitive, vec![Arg::Int(-10), Arg::Int(0)])
    );
    let button = Borrowed::<C_GtkButton>::from_raw(Ptr::new(0x200));
    assert_eq!(
        dialog.add_action_widget(&button, Response::Help),
        on(Symbol::GtkDialogAddActionWidget, vec![Arg::Pointer(0x200), Arg::Int(-11)])
    );
    assert_eq!(
        dialog.get_response_for_widget(&button),
        on(Symbol::GtkDialogGetResponseForWidget, vec![Arg::Pointer(0x200)])
    );
    assert_eq!(
        dialog.get_widget_for_reponse(Response::Yes),
        on(Symbol::GtkDialogGetWidgetForResponse, vec![Arg::Int(-8)])
    );
    assert_eq!(dialog.get_action_area(), on(Symbol::GtkDialogGetActionArea, vec![]));
    assert_eq!(dialog.get_content_area(), on(Symbol::GtkDialogGetContentArea, vec![]));
    assert_eq!(dialog.get_header_bar(), on(Symbol::GtkDialogGetHeaderBar, vec![]));
}

#[test]
fn buttons_are_added_first_to_last() {
    let dialog = Envelope::<C_GtkDialog>::from_floating_ptr(Ptr::new(0x100)).0;
    assert_eq!(
        dialog.add_buttons(Buttons::OkCancel),
        vec![add_button(0x100, "Cancel", -6), add_button(0x100, "Ok", -5)]
    );
    let own =
        [("Retry", Response::User(1)), ("Skip", Response::User(2)), ("Stop", Response::Reject)];
    assert_eq!(
        dialog.add_buttons(&own[..]),
        vec![
            add_button(0x100, "Retry", 1),
            add_button(0x100, "Skip", 2),
            add_button(0x100, "Stop", -2)
        ]
    );
    let none: [(&str, Response); 0] = [];
    assert!(dialog.add_buttons(&none[..]).is_empty());
}

#[test]
fn dialog_with_buttons_for_a_parent() {
    let parent = window(0x10);
    let recipe = Dialog::with_buttons("Question", Some(&parent), Buttons::YesNo);
    assert_eq!(
        *recipe.create(),
        Call {
            symbol: Symbol::GtkDialogNewWithButtons,
            args: vec![text("Question"), Arg::Pointer(0x10), Arg::UInt(3), Arg::Pointer(0)],
        }
    );
    assert_eq!(*recipe.setup(), vec![add_button(0, "No", -9), add_button(0, "Yes", -8)]);
    let (dialog, calls) = recipe.complete(Ptr::new(0x300)).unwrap();
    assert_eq!(dialog.as_ptr().addr, 0x300);
    assert_eq!(
        calls,
        vec![
            Call { symbol: Symbol::GObjectRefSink, args: vec![Arg::Pointer(0x300)] },
            add_button(0x300, "No", -9),
            add_button(0x300, "Yes", -8),
        ]
    );
}

#[test]
fn dialog_without_a_parent_has_no_flags() {
    let recipe = Dialog::with_buttons("Question", NO_PARENT, Buttons::Close);
    assert_eq!(
        recipe.create().args,
        vec![text("Question"), Arg::Pointer(0), Arg::UInt(0), Arg::Pointer(0)]
    );
    assert_eq!(*recipe.setup(), vec![add_button(0, "Close", -7)]);
    assert_eq!(*Dialog::new().create(), Call { symbol: Symbol::GtkDialogNew, args: vec![] });
    assert!(Dialog::new().setup().is_empty());
}

#[test]
fn modal_message_dialog() {
    let parent = window(0x10);
    let recipe =
        Message::new(Some(&parent), MessageType::Info, Buttons::OkCancel, "This is a trap !");
    assert_eq!(
        *recipe.create(),
        Call {
            symbol: Symbol::GtkMessageDialogNew,
            args: vec![
                Arg::Pointer(0x10),
                Arg::UInt(GTK_DIALOG_MODAL | GTK_DIALOG_DESTROY_WITH_PARENT),
                Arg::Int(0),
                Arg::Int(0),
                text("%s"),
                text("This is a trap !"),
                Arg::Pointer(0),
            ],
        }
    );
    let (dialog, calls) = recipe.complete(Ptr::new(0x400)).unwrap();
    assert_eq!(
        calls,
        vec![
            Call { symbol: Symbol::GObjectRefSink, args: vec![Arg::Pointer(0x400)] },
            add_button(0x400, "Cancel", -6),
            add_button(0x400, "Ok", -5),
        ]
    );
    assert_eq!(
        dialog.run(),
        Call { symbol: Symbol::GtkDialogRun, args: vec![Arg::Pointer(0x400)] }
    );
    // what the two buttons give when the user clicks them
    assert_eq!(Response::from_glib(-5), Response::Okay);
    assert_eq!(Response::from_glib(-6), Response::Cancel);
    // closing the dialog window posts a response of its own
    assert_eq!(Response::from_glib(-4), Response::DeleteEvent);
    assert_eq!(
        dialog.release(),
        Call { symbol: Symbol::GObjectUnref, args: vec![Arg::Pointer(0x400)] }
    );
}

#[test]
fn message_types_reach_the_constructor() {
    for (message_type, code) in [
        (MessageType::Info, 0),
        (MessageType::Warning, 1),
        (MessageType::Question, 2),
        (MessageType::Error, 3),
        (MessageType::Other, 4),
    ] {
        let recipe = Message::new(NO_PARENT, message_type, Buttons::Okay, "m");
        assert_eq!(recipe.create().args[0], Arg::Pointer(0));
        assert_eq!(recipe.create().args[1], Arg::UInt(0));
        assert_eq!(recipe.create().args[2], Arg::Int(code));
    }
}

#[test]
fn a_message_is_never_taken_for_a_format() {
    let recipe = Message::new(NO_PARENT, MessageType::Warning, Buttons::Okay, "100%s sure %d");
    assert_eq!(recipe.create().args[4], text("%s"));
    assert_eq!(recipe.create().args[5], text("100%s sure %d"));
}

#[test]
fn message_with_markup_sets_its_text_last() {
    let parent = window(0x10);
    let recipe =
        Message::with_markup(Some(&parent), MessageType::Question, Buttons::YesNo, "<b>Sure?</b>");
    assert_eq!(recipe.create().symbol, Symbol::GtkMessageDialogNew);
    assert_eq!(recipe.create().args[1], Arg::UInt(3));
    assert_eq!(recipe.create().args[2], Arg::Int(2));
    assert_eq!(recipe.create().args[5], text(""));
    let markup = |dialog| Call {
        symbol: Symbol::GtkMessageDialogSetMarkup,
        args: vec![Arg::Pointer(dialog), text("<b>Sure?</b>")],
    };
    assert_eq!(
        *recipe.setup(),
        vec![add_button(0, "No", -9), add_button(0, "Yes", -8), markup(0)]
    );
    let (dialog, calls) = recipe.complete(Ptr::new(0x500)).unwrap();
    assert_eq!(calls.len(), 4);
    assert_eq!(calls[3], markup(0x500));
    assert_eq!(Message::set_markup(&dialog, "<b>Sure?</b>"), markup(0x500));
    assert_eq!(
        Message::get_message_area(&dialog),
        Call { symbol: Symbol::GtkMessageDialogGetMessageArea, args: vec![Arg::Pointer(0x500)] }
    );
}

#[test]
fn message_dialog_with_prebuilt_buttons() {
    let flags = DialogFlags { modal: true, destroy_with_parent: false, use_header_bar: false };
    let recipe = MessageDialog::new_with_markup(
        NO_PARENT,
        flags,
        MessageType::Info,
        ButtonsType::OkCancel,
        "This is a trap !",
    );
    assert_eq!(
        *recipe.create(),
        Call {
            symbol: Symbol::GtkMessageDialogNew,
            args: vec![
                Arg::Pointer(0),
                Arg::UInt(1),
                Arg::Int(0),
                Arg::Int(5),
                Arg::Pointer(0),
            ],
        }
    );
    let markup = |dialog| Call {
        symbol: Symbol::GtkMessageDialogSetMarkup,
        args: vec![Arg::Pointer(dialog), text("This is a trap !")],
    };
    assert_eq!(*recipe.setup(), vec![markup(0)]);
    let (dialog, calls) = recipe.complete(Ptr::new(0x600)).unwrap();
    assert_eq!(calls[1], markup(0x600));
    assert_eq!(MessageDialog::set_markup(&dialog, "This is a trap !"), markup(0x600));
    assert_eq!(MessageDialog::get_message_area(&dialog).receiver(), 0x600);

    let parent = window(0x10);
    let plain = MessageDialog::new(Some(&parent), flags, MessageType::Error, ButtonsType::Close);
    assert_eq!(plain.create().args[0], Arg::Pointer(0x10));
    assert_eq!(plain.create().args[2], Arg::Int(3));
    assert_eq!(plain.create().args[3], Arg::Int(2));
    assert!(plain.setup().is_empty());
}

#[test]
fn a_failed_message_dialog_is_absent() {
    let recipe = MessageDialog::new(
        NO_PARENT,
        DialogFlags::for_parent(false),
        MessageType::Info,
        ButtonsType::NoButtons,
    );
    assert!(recipe.complete(Ptr::<C_GtkMessageDialog>::null()).is_none());
}

#[test]
fn chooser_dialogs() {
    let parent = window(0x10);
    assert_eq!(*About::new().create(), Call { symbol: Symbol::GtkAboutDialogNew, args: vec![] });
    assert_eq!(
        *AppChooser::new_for_content_type(Some(&parent), "text/plain").create(),
        Call {
            symbol: Symbol::GtkAppChooserDialogNewForContentType,
            args: vec![Arg::Pointer(0x10), Arg::UInt(3), text("text/plain")],
        }
    );
    assert_eq!(
        AppChooser::new_for_content_type(NO_PARENT, "text/plain").create().args,
        vec![Arg::Pointer(0), Arg::UInt(0), text("text/plain")]
    );
    assert_eq!(
        *ColorChooser::new("Colour", Some(&parent)).create(),
        Call {
            symbol: Symbol::GtkColorChooserDialogNew,
            args: vec![text("Colour"), Arg::Pointer(0x10)],
        }
    );
    assert_eq!(
        *FontChooser::new("Font", NO_PARENT).create(),
        Call { symbol: Symbol::GtkFontChooserDialogNew, args: vec![text("Font"), Arg::Pointer(0)] }
    );
    let file = FileChooser::new("Open", Some(&parent), FileChooserAction::Save, Buttons::OkCancel);
    assert_eq!(
        *file.create(),
        Call {
            symbol: Symbol::GtkFileChooserDialogNew,
            args: vec![text("Open"), Arg::Pointer(0x10), Arg::Int(1), Arg::Pointer(0)],
        }
    );
    assert_eq!(*file.setup(), vec![add_button(0, "Cancel", -6), add_button(0, "Ok", -5)]);
    let recent = RecentChooser::new("Recent", NO_PARENT, Buttons::Close);
    assert_eq!(
        *recent.create(),
        Call {
            symbol: Symbol::GtkRecentChooserDialogNew,
            args: vec![text("Recent"), Arg::Pointer(0), Arg::Pointer(0)],
        }
    );
    assert_eq!(*recent.setup(), vec![add_button(0, "Close", -7)]);
    let manager = Borrowed::<C_GtkRecentManager>::from_raw(Ptr::new(0x20));
    let managed = RecentChooser::new_for_manager("Recent", Some(&parent), &manager, Buttons::Okay);
    assert_eq!(
        *managed.create(),
        Call {
            symbol: Symbol::GtkRecentChooserDialogNewForManager,
            args: vec![text("Recent"), Arg::Pointer(0x10), Arg::Pointer(0x20), Arg::Pointer(0)],
        }
    );
    assert_eq!(*managed.setup(), vec![add_button(0, "Ok", -5)]);
}
