use rgtk::ffi::{Arg, Call, Reply, Symbol};
use rgtk::glib::translate::CStrBuf;
use rgtk::glib::types::ClassId;

#[test]
fn call_builders_keep_the_order_of_arguments() {
    assert_eq!(Call::nullary(Symbol::GtkMain), Call { symbol: Symbol::GtkMain, args: vec![] });
    assert_eq!(
        Call::unary(Symbol::GtkWidgetShowAll, Arg::Pointer(8)),
        Call { symbol: Symbol::GtkWidgetShowAll, args: vec![Arg::Pointer(8)] }
    );
    assert_eq!(
        Call::binary(Symbol::GtkBoxNew, Arg::Int(1), Arg::Int(2)).args,
        vec![Arg::Int(1), Arg::Int(2)]
    );
    assert_eq!(
        Call::ternary(Symbol::GtkFixedPut, Arg::Int(1), Arg::Int(2), Arg::Int(3)).args,
        vec![Arg::Int(1), Arg::Int(2), Arg::Int(3)]
    );
    assert_eq!(
        Call::quaternary(Symbol::GtkFixedPut, Arg::Int(1), Arg::Int(2), Arg::Int(3), Arg::Int(4))
            .args,
        vec![Arg::Int(1), Arg::Int(2), Arg::Int(3), Arg::Int(4)]
    );
    assert_eq!(
        Call::from_args(Symbol::GtkMain, vec![Arg::UInt(7), Arg::ULong(9)]).args,
        vec![Arg::UInt(7), Arg::ULong(9)]
    );
}

#[test]
fn call_accessors_read_by_position_and_kind() {
    let call = Call {
        symbol: Symbol::GSignalConnectData,
        args: vec![
            Arg::Pointer(0x10),
            Arg::Str(CStrBuf::from_str("clicked")),
            Arg::UInt(3),
            Arg::ULong(99),
            Arg::Int(-4),
        ],
    };
    assert_eq!(call.receiver(), 0x10);
    assert_eq!(call.pointer_at(0), 0x10);
    assert_eq!(call.pointer_at(1), 0);
    assert_eq!(call.pointer_at(17), 0);
    assert_eq!(call.string_at(1), b"clicked".to_vec());
    assert_eq!(call.string_at(0), Vec::<u8>::new());
    assert_eq!(call.string_at(17), Vec::<u8>::new());
    assert_eq!(call.uint_at(2), 3);
    assert_eq!(call.uint_at(3), 0);
    assert_eq!(call.ulong_at(3), 99);
    assert_eq!(call.ulong_at(2), 0);
    assert_eq!(Call::nullary(Symbol::GtkMain).receiver(), 0);
    assert_eq!(Call::unary(Symbol::GtkMain, Arg::Int(5)).receiver(), 0);
}

#[test]
fn constructors_name_the_class_they_make() {
    assert_eq!(Symbol::GtkWindowNew.creates(), Some(ClassId::Window));
    assert_eq!(Symbol::GtkButtonNewWithLabel.creates(), Some(ClassId::Button));
    assert_eq!(Symbol::GtkCheckButtonNewWithLabel.creates(), Some(ClassId::CheckButton));
    assert_eq!(Symbol::GtkMessageDialogNew.creates(), Some(ClassId::MessageDialog));
    assert_eq!(Symbol::GtkLabelNew.creates(), Some(ClassId::Label));
    assert_eq!(Symbol::GtkWidgetShowAll.creates(), None);
    assert_eq!(Symbol::GObjectUnref.creates(), None);
    assert_eq!(Symbol::GtkMain.creates(), None);
}

#[test]
fn methods_name_the_class_they_work_on() {
    assert_eq!(Symbol::GObjectRefSink.receiver_class(), Some(ClassId::Object));
    assert_eq!(Symbol::GtkWidgetShowAll.receiver_class(), Some(ClassId::Widget));
    assert_eq!(Symbol::GtkContainerAdd.receiver_class(), Some(ClassId::Container));
    assert_eq!(Symbol::GtkWindowSetTitle.receiver_class(), Some(ClassId::Window));
    assert_eq!(Symbol::GtkDialogRun.receiver_class(), Some(ClassId::Dialog));
    assert_eq!(Symbol::GtkFileChooserGetUris.receiver_class(), Some(ClassId::FileChooser));
    assert_eq!(Symbol::GtkWindowNew.receiver_class(), None);
    assert_eq!(Symbol::GtkMainQuit.receiver_class(), None);
}

#[test]
fn replies_compare_by_value() {
    assert_eq!(Reply::Pointer(4), Reply::Pointer(4));
    assert_ne!(Reply::Pointer(4), Reply::ULong(4));
    assert_ne!(Reply::Nothing, Reply::Int(0));
}

#[test]
fn entry_points_have_the_names_of_the_c_libraries() {
    assert_eq!(Symbol::GObjectRefSink.name(), "g_object_ref_sink");
    assert_eq!(Symbol::GObjectUnref.name(), "g_object_unref");
    assert_eq!(Symbol::GSignalConnectData.name(), "g_signal_connect_data");
    assert_eq!(Symbol::GlueSignalConnect.name(), "glue_signal_connect");
    assert_eq!(Symbol::GtkWindowNew.name(), "gtk_window_new");
    assert_eq!(Symbol::GtkDialogRun.name(), "gtk_dialog_run");
    assert_eq!(
        Symbol::GtkFileChooserAddShortcutFolderUri.name(),
        "gtk_file_chooser_add_shortcut_folder_uri"
    );
}

#[test]
fn the_main_loop_calls() {
    assert_eq!(
        rgtk::gtk::rt::init(),
        Call { symbol: Symbol::GtkInit, args: vec![Arg::Pointer(0), Arg::Pointer(0)] }
    );
    assert_eq!(rgtk::gtk::rt::main(), Call { symbol: Symbol::GtkMain, args: vec![] });
    assert_eq!(rgtk::gtk::rt::main_quit(), Call { symbol: Symbol::GtkMainQuit, args: vec![] });
}
