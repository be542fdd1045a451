use rgtk::ffi::{Arg, Call, Symbol};
use rgtk::glib::error::{C_GError, Error};
use rgtk::glib::glib_container::GlibContainer;
use rgtk::glib::list::{Links, List, Transfer};
use rgtk::glib::traits::{AsPtr, Borrowed, Envelope, FromPtr, Ptr};
use rgtk::glib::translate::CStrBuf;
use rgtk::gtk::box_::Box_;
use rgtk::gtk::button::Button;
use rgtk::gtk::check_button::CheckButton;
use rgtk::gtk::container::ContainerTrait;
use rgtk::gtk::dialog::About;
use rgtk::gtk::enums::{
    ButtonsType, FileChooserAction, MessageType, Orientation, PackDirection, PositionType,
    ReliefStyle, WindowPosition, WindowType,
};
use rgtk::gtk::ffi::{
    C_GtkBox, C_GtkButton, C_GtkCheckButton, C_GtkColorButton, C_GtkComboBox,
    C_GtkFileChooserDialog, C_GtkMenuToolButton, C_GtkTextMark, C_GtkTreeModel, C_GtkWidget,
    C_GtkWindow, FFIWidget,
};
use rgtk::gtk::toggle_button::{ToggleButton, ToggleButtonTrait};
use rgtk::gtk::traits::button::GtkButton;
use rgtk::gtk::traits::color_chooser::ColorChooserTrait;
use rgtk::gtk::traits::combo_box::ComboBoxTrait;
use rgtk::gtk::traits::file_chooser::FileChooserTrait;
use rgtk::gtk::traits::orientable::OrientableTrait;
use rgtk::gtk::widget::WidgetTrait;
use rgtk::gtk::widgets::aspectframe::AspectFrame;
use rgtk::gtk::widgets::color_button::ColorButton;
use rgtk::gtk::widgets::fixed::Fixed;
use rgtk::gtk::widgets::frame::Frame;
use rgtk::gtk::widgets::grid::Grid;
use rgtk::gtk::widgets::image::Image;
use rgtk::gtk::widgets::menu_tool_button::MenuToolButton;
use rgtk::gtk::widgets::menubar::MenuBar;
use rgtk::gtk::widgets::overlay::Overlay;
use rgtk::gtk::widgets::paned::Paned;
use rgtk::gtk::widgets::paper_size::PaperSize;
use rgtk::gtk::widgets::radio_button::RadioButton;
use rgtk::gtk::widgets::scalebutton::ScaleButton;
use rgtk::gtk::widgets::spinbutton::SpinButton;
use rgtk::gtk::widgets::text_mark::TextMark;
use rgtk::gtk::widgets::toggletoolbutton::ToggleToolButton;
use rgtk::gtk::widgets::toolbar::Toolbar;
use rgtk::gtk::widgets::toolbutton::ToolButton;
use rgtk::gtk::widgets::toolitem::ToolItem;
use rgtk::gtk::widgets::tree_model::TreeModel;
use rgtk::gtk::widgets::Widget;
use rgtk::gtk::window::{Window, WindowTrait};

fn text(s: &str) -> Arg {
    Arg::Str(CStrBuf::from_str(s))
}

fn call(symbol: Symbol, args: Vec<Arg>) -> Call {
    Call { symbol, args }
}

fn handle<T: rgtk::glib::traits::GetGType>(addr: usize) -> Envelope<T> {
    Envelope::<T>::from_floating_ptr(Ptr::new(addr)).0
}

const NO_ICON: Option<&Envelope<C_GtkWidget>> = None;

#[test]
fn enumerations_have_the_values_of_the_headers() {
    assert_eq!(WindowType::TopLevel.to_glib(), 0);
    assert_eq!(WindowType::PopUp.to_glib(), 1);
    assert_eq!(WindowPosition::Unset.to_glib(), 0);
    assert_eq!(WindowPosition::Center.to_glib(), 1);
    assert_eq!(WindowPosition::Mouse.to_glib(), 2);
    assert_eq!(WindowPosition::CenterAlways.to_glib(), 3);
    assert_eq!(WindowPosition::CenterOnParent.to_glib(), 4);
    assert_eq!(Orientation::Horizontal.to_glib(), 0);
    assert_eq!(Orientation::Vertical.to_glib(), 1);
    assert_eq!(MessageType::Info.to_glib(), 0);
    assert_eq!(MessageType::Other.to_glib(), 4);
    assert_eq!(ButtonsType::NoButtons.to_glib(), 0);
    assert_eq!(ButtonsType::Okay.to_glib(), 1);
    assert_eq!(ButtonsType::OkCancel.to_glib(), 5);
    assert_eq!(FileChooserAction::Open.to_glib(), 0);
    assert_eq!(FileChooserAction::CreateFolder.to_glib(), 3);
}

#[test]
fn enumerations_are_read_back() {
    for v in 0..5 {
        assert_eq!(WindowPosition::from_glib(v).map(|p| p.to_glib()), Some(v));
    }
    assert_eq!(WindowPosition::from_glib(5), None);
    assert_eq!(WindowPosition::from_glib(-1), None);
    assert_eq!(Orientation::from_glib(1), Some(Orientation::Vertical));
    assert_eq!(Orientation::from_glib(2), None);
    assert_eq!(WindowType::from_glib(0), Some(WindowType::TopLevel));
    assert_eq!(MessageType::from_glib(3), Some(MessageType::Error));
    assert_eq!(ButtonsType::from_glib(6), None);
    assert_eq!(FileChooserAction::from_glib(2), Some(FileChooserAction::SelectFolder));
}

#[test]
fn simple_constructors() {
    assert_eq!(
        *Window::new(WindowType::TopLevel).create(),
        call(Symbol::GtkWindowNew, vec![Arg::Int(0)])
    );
    assert_eq!(
        *Window::new(WindowType::PopUp).create(),
        call(Symbol::GtkWindowNew, vec![Arg::Int(1)])
    );
    assert_eq!(
        *Button::new_with_label("Click me!").create(),
        call(Symbol::GtkButtonNewWithLabel, vec![text("Click me!")])
    );
    assert_eq!(
        *CheckButton::new_with_label("Exit").create(),
        call(Symbol::GtkCheckButtonNewWithLabel, vec![text("Exit")])
    );
    assert_eq!(
        *ToggleButton::new_with_label("Toggle Me !").create(),
        call(Symbol::GtkToggleButtonNewWithLabel, vec![text("Toggle Me !")])
    );
    assert_eq!(
        *ToggleButton::new().create(),
        call(Symbol::GtkToggleButtonNew, vec![])
    );
    assert_eq!(
        *ToggleButton::new_with_mnemonic("_Toggle").create(),
        call(Symbol::GtkToggleButtonNewWithMnemonic, vec![text("_Toggle")])
    );
    assert_eq!(
        *Box_::new(Orientation::Vertical, 10).create(),
        call(Symbol::GtkBoxNew, vec![Arg::Int(1), Arg::Int(10)])
    );
    assert!(Window::new(WindowType::TopLevel).setup().is_empty());
    let (button, calls) = Button::new_with_label("x").complete(Ptr::new(0x80)).unwrap();
    assert_eq!(button.as_ptr().addr, 0x80);
    assert_eq!(calls, vec![call(Symbol::GObjectRefSink, vec![Arg::Pointer(0x80)])]);
}

#[test]
fn window_operations() {
    let window = handle::<C_GtkWindow>(0x10);
    assert_eq!(
        window.set_title("First GTK+ Program"),
        call(Symbol::GtkWindowSetTitle, vec![Arg::Pointer(0x10), text("First GTK+ Program")])
    );
    assert_eq!(
        window.set_default_size(350, 70),
        call(
            Symbol::GtkWindowSetDefaultSize,
            vec![Arg::Pointer(0x10), Arg::Int(350), Arg::Int(70)]
        )
    );
    assert_eq!(
        window.set_window_position(WindowPosition::Center),
        call(Symbol::GtkWindowSetPosition, vec![Arg::Pointer(0x10), Arg::Int(1)])
    );
    assert_eq!(window.get_title(), call(Symbol::GtkWindowGetTitle, vec![Arg::Pointer(0x10)]));
    assert_eq!(
        window.set_border_width(10),
        call(Symbol::GtkContainerSetBorderWidth, vec![Arg::Pointer(0x10), Arg::UInt(10)])
    );
    assert_eq!(
        window.get_border_width(),
        call(Symbol::GtkContainerGetBorderWidth, vec![Arg::Pointer(0x10)])
    );
    assert_eq!(window.show_all(), call(Symbol::GtkWidgetShowAll, vec![Arg::Pointer(0x10)]));
}

#[test]
fn containers_take_and_give_children() {
    let window = handle::<C_GtkWindow>(0x10);
    let button = handle::<C_GtkButton>(0x20);
    assert_eq!(
        window.add(&button),
        call(Symbol::GtkContainerAdd, vec![Arg::Pointer(0x10), Arg::Pointer(0x20)])
    );
    assert_eq!(
        window.remove(&button),
        call(Symbol::GtkContainerRemove, vec![Arg::Pointer(0x10), Arg::Pointer(0x20)])
    );
    let view = Borrowed::<C_GtkCheckButton>::from_raw(Ptr::new(0x30));
    assert_eq!(window.add(&view).pointer_at(1), 0x30);
}

#[test]
fn toggle_button_operations() {
    let check = handle::<C_GtkCheckButton>(0x30);
    let on = |symbol, rest: Vec<Arg>| {
        let mut args = vec![Arg::Pointer(0x30)];
        args.extend(rest);
        call(symbol, args)
    };
    assert_eq!(check.get_active(), on(Symbol::GtkToggleButtonGetActive, vec![]));
    assert_eq!(check.set_active(true), on(Symbol::GtkToggleButtonSetActive, vec![Arg::Int(1)]));
    assert_eq!(check.set_active(false), on(Symbol::GtkToggleButtonSetActive, vec![Arg::Int(0)]));
    assert_eq!(check.set_mode(true), on(Symbol::GtkToggleButtonSetMode, vec![Arg::Int(1)]));
    assert_eq!(check.get_mode(), on(Symbol::GtkToggleButtonGetMode, vec![]));
    assert_eq!(
        check.set_inconsistent(false),
        on(Symbol::GtkToggleButtonSetInconsistent, vec![Arg::Int(0)])
    );
    assert_eq!(check.get_inconsistent(), on(Symbol::GtkToggleButtonGetInconsistent, vec![]));
    assert_eq!(check.toggled(), on(Symbol::GtkToggleButtonToggled, vec![]));
}

#[test]
fn interface_operations() {
    let boxed = handle::<C_GtkBox>(0x40);
    assert_eq!(
        boxed.set_orientation(Orientation::Vertical),
        call(Symbol::GtkOrientableSetOrientation, vec![Arg::Pointer(0x40), Arg::Int(1)])
    );
    assert_eq!(
        boxed.get_orientation(),
        call(Symbol::GtkOrientableGetOrientation, vec![Arg::Pointer(0x40)])
    );
    let colour = handle::<C_GtkColorButton>(0x50);
    assert_eq!(
        colour.set_use_alpha(true),
        call(Symbol::GtkColorChooserSetUseAlpha, vec![Arg::Pointer(0x50), Arg::Int(1)])
    );
    assert_eq!(
        colour.get_use_alpha(),
        call(Symbol::GtkColorChooserGetUseAlpha, vec![Arg::Pointer(0x50)])
    );
    let combo = handle::<C_GtkComboBox>(0x60);
    assert_eq!(
        ComboBoxTrait::set_active(&combo, 3),
        call(Symbol::GtkComboBoxSetActive, vec![Arg::Pointer(0x60), Arg::Int(3)])
    );
    assert_eq!(
        combo.set_active_id("first"),
        call(Symbol::GtkComboBoxSetActiveId, vec![Arg::Pointer(0x60), text("first")])
    );
    assert_eq!(combo.popup(), call(Symbol::GtkComboBoxPopup, vec![Arg::Pointer(0x60)]));
    assert_eq!(
        combo.set_popup_fixed_width(false),
        call(Symbol::GtkComboBoxSetPopupFixedWidth, vec![Arg::Pointer(0x60), Arg::Int(0)])
    );
}

#[test]
fn file_chooser_operations() {
    let chooser = handle::<C_GtkFileChooserDialog>(0x70);
    assert_eq!(
        chooser.set_action(FileChooserAction::Save),
        call(Symbol::GtkFileChooserSetAction, vec![Arg::Pointer(0x70), Arg::Int(1)])
    );
    assert_eq!(
        chooser.set_select_multiple(true),
        call(Symbol::GtkFileChooserSetSelectMultiple, vec![Arg::Pointer(0x70), Arg::Int(1)])
    );
    assert_eq!(
        chooser.set_filename("/tmp/a b"),
        call(Symbol::GtkFileChooserSetFilename, vec![Arg::Pointer(0x70), text("/tmp/a b")])
    );
    assert_eq!(chooser.get_uris(), call(Symbol::GtkFileChooserGetUris, vec![Arg::Pointer(0x70)]));
    assert_eq!(
        chooser.get_filenames(),
        call(Symbol::GtkFileChooserGetFilenames, vec![Arg::Pointer(0x70)])
    );
    let error = Error::check_pointer(Ptr::new(0x900)).unwrap();
    assert_eq!(
        chooser.add_shortcut_folder("/srv", &error),
        call(
            Symbol::GtkFileChooserAddShortcutFolder,
            vec![Arg::Pointer(0x70), text("/srv"), Arg::Pointer(0x900)]
        )
    );
    assert_eq!(
        chooser.remove_shortcut_folder_uri("file:///srv", &Error::empty()),
        call(
            Symbol::GtkFileChooserRemoveShortcutFolderUri,
            vec![Arg::Pointer(0x70), text("file:///srv"), Arg::Pointer(0)]
        )
    );
}

#[test]
fn handles_own_what_a_constructor_returned() {
    assert!(Paned::check_pointer(Ptr::null()).is_none());
    assert!(Fixed::check_pointer(Ptr::null()).is_none());
    assert!(Image::check_pointer(Ptr::null()).is_none());
    assert!(Toolbar::check_pointer(Ptr::null()).is_none());
    assert!(ToolItem::check_pointer(Ptr::null()).is_none());
    assert!(ToggleToolButton::check_pointer(Ptr::null()).is_none());
    assert!(SpinButton::check_pointer(Ptr::null()).is_none());
    assert!(ScaleButton::check_pointer(Ptr::null()).is_none());
    assert!(AspectFrame::check_pointer(Ptr::null()).is_none());
    assert!(Widget::check_pointer(Ptr::null()).is_none());
    let paned = Paned::check_pointer(Ptr::new(0x100)).unwrap();
    assert!(paned.can_drop());
    assert_eq!(paned.get_widget().addr, 0x100);
    let frame = AspectFrame::check_pointer(Ptr::new(0x108)).unwrap();
    assert!(frame.can_drop());
    assert_eq!(frame.get_widget().addr, 0x108);
}

#[test]
fn owning_handles_give_their_reference_up() {
    let unref = |addr| call(Symbol::GObjectUnref, vec![Arg::Pointer(addr)]);
    assert_eq!(Paned::check_pointer(Ptr::new(0x100)).unwrap().release(), Some(unref(0x100)));
    assert_eq!(Widget::check_pointer(Ptr::new(0x108)).unwrap().release(), Some(unref(0x108)));
    assert_eq!(Grid::check_pointer(Ptr::new(0x110)).unwrap().release(), Some(unref(0x110)));
    // a view has no reference to give up
    assert_eq!(Paned::wrap(Ptr::new(0x100)).release(), None);
    assert_eq!(Widget::wrap(Ptr::new(0x108)).release(), None);
    assert_eq!(ToolItem::wrap(Ptr::new(0x118)).release(), None);
}

#[test]
fn an_owned_paper_size_is_freed_and_released() {
    let owned = PaperSize::check_pointer(Ptr::new(0x800)).unwrap();
    assert_eq!(
        owned.release(),
        vec![
            call(Symbol::GtkPaperSizeFree, vec![Arg::Pointer(0x800)]),
            call(Symbol::GObjectUnref, vec![Arg::Pointer(0x800)]),
        ]
    );
    assert!(PaperSize::wrap(Ptr::new(0x800)).release().is_empty());
}

#[test]
fn wrapped_handles_are_views() {
    let paned = Paned::wrap(Ptr::new(0x100));
    assert!(!paned.can_drop());
    assert_eq!(paned.get_widget().addr, 0x100);
    let widget = Widget::wrap(Ptr::new(0x110));
    assert!(!widget.can_drop());
    assert_eq!(widget.get_widget().addr, 0x110);
    let null = Image::wrap(Ptr::null());
    assert!(!null.can_drop());
    assert!(null.get_widget().is_null());
}

#[test]
fn paned_operations() {
    assert_eq!(Paned::new(Orientation::Vertical), call(Symbol::GtkPanedNew, vec![Arg::Int(1)]));
    let paned = Paned::check_pointer(Ptr::new(0x100)).unwrap();
    let child = Widget::wrap(Ptr::new(0x200));
    assert_eq!(
        paned.add1(&child),
        call(Symbol::GtkPanedAdd1, vec![Arg::Pointer(0x100), Arg::Pointer(0x200)])
    );
    assert_eq!(
        paned.add2(&child),
        call(Symbol::GtkPanedAdd2, vec![Arg::Pointer(0x100), Arg::Pointer(0x200)])
    );
    assert_eq!(
        paned.pack1(&child, true, false),
        call(
            Symbol::GtkPanedPack1,
            vec![Arg::Pointer(0x100), Arg::Pointer(0x200), Arg::Int(1), Arg::Int(0)]
        )
    );
    assert_eq!(
        paned.pack2(&child, false, true),
        call(
            Symbol::GtkPanedPack2,
            vec![Arg::Pointer(0x100), Arg::Pointer(0x200), Arg::Int(0), Arg::Int(1)]
        )
    );
    assert_eq!(
        paned.set_position(-3),
        call(Symbol::GtkPanedSetPosition, vec![Arg::Pointer(0x100), Arg::Int(-3)])
    );
    assert_eq!(paned.get_position(), call(Symbol::GtkPanedGetPosition, vec![Arg::Pointer(0x100)]));
}

#[test]
fn fixed_image_and_tool_items() {
    assert_eq!(Fixed::new(), call(Symbol::GtkFixedNew, vec![]));
    let fixed = Fixed::check_pointer(Ptr::new(0x100)).unwrap();
    let child = Widget::wrap(Ptr::new(0x200));
    assert_eq!(
        fixed.put(&child, 5, 6),
        call(
            Symbol::GtkFixedPut,
            vec![Arg::Pointer(0x100), Arg::Pointer(0x200), Arg::Int(5), Arg::Int(6)]
        )
    );
    assert_eq!(
        fixed.move_(&child, -5, 0),
        call(
            Symbol::GtkFixedMove,
            vec![Arg::Pointer(0x100), Arg::Pointer(0x200), Arg::Int(-5), Arg::Int(0)]
        )
    );
    assert_eq!(
        Image::new_from_file("./test/resources/gtk.jpg"),
        call(Symbol::GtkImageNewFromFile, vec![text("./test/resources/gtk.jpg")])
    );
    assert_eq!(ToolItem::new(), call(Symbol::GtkToolItemNew, vec![]));
    assert_eq!(ToggleToolButton::new(), call(Symbol::GtkToggleToolButtonNew, vec![]));
    assert_eq!(
        ToggleToolButton::new_from_stock("gtk-ok"),
        call(Symbol::GtkToggleToolButtonNewFromStock, vec![text("gtk-ok")])
    );
}

#[test]
fn toolbar_and_spin_button_operations() {
    assert_eq!(Toolbar::new(), call(Symbol::GtkToolbarNew, vec![]));
    let toolbar = Toolbar::check_pointer(Ptr::new(0x100)).unwrap();
    let item = ToolItem::wrap(Ptr::new(0x200));
    assert_eq!(
        toolbar.insert(&item, -1),
        call(Symbol::GtkToolbarInsert, vec![Arg::Pointer(0x100), Arg::Pointer(0x200), Arg::Int(-1)])
    );
    assert_eq!(
        toolbar.nth_item(2),
        call(Symbol::GtkToolbarGetNthItem, vec![Arg::Pointer(0x100), Arg::Int(2)])
    );
    assert_eq!(
        toolbar.set_show_arrow(true),
        call(Symbol::GtkToolbarSetShowArrow, vec![Arg::Pointer(0x100), Arg::Int(1)])
    );
    assert_eq!(toolbar.n_items(), call(Symbol::GtkToolbarGetNItems, vec![Arg::Pointer(0x100)]));
    let spin = SpinButton::wrap(Ptr::new(0x300));
    assert_eq!(
        spin.set_digits(2),
        call(Symbol::GtkSpinButtonSetDigits, vec![Arg::Pointer(0x300), Arg::UInt(2)])
    );
    assert_eq!(
        spin.set_numeric(false),
        call(Symbol::GtkSpinButtonSetNumeric, vec![Arg::Pointer(0x300), Arg::Int(0)])
    );
    assert_eq!(
        spin.get_value_as_int(),
        call(Symbol::GtkSpinButtonGetValueAsInt, vec![Arg::Pointer(0x300)])
    );
}

#[test]
fn tool_buttons_leave_out_what_is_absent() {
    let icon = handle::<C_GtkWidget>(0x20);
    assert_eq!(
        *ToolButton::new(Some(&icon), Some("Open")).create(),
        call(Symbol::GtkToolButtonNew, vec![Arg::Pointer(0x20), text("Open")])
    );
    assert_eq!(
        *ToolButton::new(NO_ICON, Some("Open")).create(),
        call(Symbol::GtkToolButtonNew, vec![Arg::Pointer(0), text("Open")])
    );
    assert_eq!(
        *ToolButton::new(Some(&icon), None).create(),
        call(Symbol::GtkToolButtonNew, vec![Arg::Pointer(0x20), Arg::Pointer(0)])
    );
    assert_eq!(
        *ToolButton::new(NO_ICON, None).create(),
        call(Symbol::GtkToolButtonNew, vec![Arg::Pointer(0), Arg::Pointer(0)])
    );
    assert_eq!(
        *ToolButton::new_from_stock("gtk-open").create(),
        call(Symbol::GtkToolButtonNewFromStock, vec![text("gtk-open")])
    );
    assert_eq!(
        *MenuToolButton::new(Some(&icon), Some("")).create(),
        call(Symbol::GtkMenuToolButtonNew, vec![Arg::Pointer(0x20), text("")])
    );
    assert_eq!(
        *MenuToolButton::new(NO_ICON, None).create(),
        call(Symbol::GtkMenuToolButtonNew, vec![Arg::Pointer(0), Arg::Pointer(0)])
    );
    assert_eq!(
        *MenuToolButton::new_from_stock("gtk-open").create(),
        call(Symbol::GtkMenuToolButtonNewFromStock, vec![text("gtk-open")])
    );
    assert!(ToolButton::new(NO_ICON, None).complete(Ptr::null()).is_none());
    let button = handle::<C_GtkMenuToolButton>(0x30);
    assert_eq!(
        MenuToolButton::set_arrow_tooltip_text(&button, "More"),
        call(Symbol::GtkMenuToolButtonSetArrowTooltipText, vec![Arg::Pointer(0x30), text("More")])
    );
    assert_eq!(
        MenuToolButton::set_arrow_tooltip_markup(&button, "<i>More</i>"),
        call(
            Symbol::GtkMenuToolButtonSetArrowTooltipMarkup,
            vec![Arg::Pointer(0x30), text("<i>More</i>")]
        )
    );
}

#[test]
fn text_marks() {
    assert_eq!(
        TextMark::new("insert", true),
        call(Symbol::GtkTextMarkNew, vec![text("insert"), Arg::Int(1)])
    );
    assert_eq!(
        TextMark::new("bound", false),
        call(Symbol::GtkTextMarkNew, vec![text("bound"), Arg::Int(0)])
    );
    let mut mark = TextMark::wrap(Ptr::<C_GtkTextMark>::new(0x500));
    assert_eq!(mark.unwrap().addr, 0x500);
    assert_eq!(
        mark.set_visible(true),
        call(Symbol::GtkTextMarkSetVisible, vec![Arg::Pointer(0x500), Arg::Int(1)])
    );
    assert_eq!(mark.is_visible(), call(Symbol::GtkTextMarkGetVisible, vec![Arg::Pointer(0x500)]));
    assert_eq!(mark.get_name(), call(Symbol::GtkTextMarkGetName, vec![Arg::Pointer(0x500)]));
    assert_eq!(mark.is_deleted(), call(Symbol::GtkTextMarkGetDeleted, vec![Arg::Pointer(0x500)]));
    assert_eq!(
        mark.left_gravity(),
        call(Symbol::GtkTextMarkGetLeftGravity, vec![Arg::Pointer(0x500)])
    );
    assert_eq!(mark.unwrap().addr, 0x500);
    assert!(TextMark::wrap(Ptr::null()).unwrap().is_null());
}

#[test]
fn tree_models() {
    let model = TreeModel::wrap_pointer(Ptr::<C_GtkTreeModel>::new(0x600));
    assert_eq!(model.get_pointer().addr, 0x600);
    assert_eq!(model.get_flags(), call(Symbol::GtkTreeModelGetFlags, vec![Arg::Pointer(0x600)]));
    assert_eq!(
        model.get_n_columns(),
        call(Symbol::GtkTreeModelGetNColumns, vec![Arg::Pointer(0x600)])
    );
    assert_eq!(
        model.get_column_type(4),
        call(Symbol::GtkTreeModelGetColumnType, vec![Arg::Pointer(0x600), Arg::Int(4)])
    );
    assert!(TreeModel::wrap_pointer(Ptr::null()).get_pointer().is_null());
}

#[test]
fn error_slots_free_their_record_once() {
    assert_eq!(
        Error::new_literal(7, -3, "no such file"),
        call(Symbol::GErrorNewLiteral, vec![Arg::UInt(7), Arg::Int(-3), text("no such file")])
    );
    assert!(Error::check_pointer(Ptr::null()).is_none());
    let mut error = Error::check_pointer(Ptr::<C_GError>::new(0x700)).unwrap();
    assert_eq!(error.unwrap().addr, 0x700);
    assert_eq!(
        error.matches(7, -3),
        call(Symbol::GErrorMatches, vec![Arg::Pointer(0x700), Arg::UInt(7), Arg::Int(-3)])
    );
    assert_eq!(error.copy(), call(Symbol::GErrorCopy, vec![Arg::Pointer(0x700)]));
    assert_eq!(error.release(), Some(call(Symbol::GErrorFree, vec![Arg::Pointer(0x700)])));
    assert!(error.unwrap().is_null());
    assert_eq!(error.release(), None);
    assert_eq!(error.release(), None);
}

#[test]
fn a_fallible_call_comes_to_a_result() {
    // success: true, and the slot was left empty
    assert!(Error::empty().check(1).is_ok());
    assert!(Error::empty().check(-1).is_ok());
    // failure with a record
    let failed = Error::check_pointer(Ptr::new(0x700)).unwrap().check(0);
    assert_eq!(failed.err().map(|e| e.unwrap().addr), Some(0x700));
    // failure without one
    let bare = Error::empty().check(0);
    assert_eq!(bare.err().map(|e| e.unwrap().addr), Some(0));
    // a record is never lost, whatever the status says
    let odd = Error::check_pointer(Ptr::new(0x708)).unwrap().check(1);
    assert_eq!(odd.err().map(|e| e.unwrap().addr), Some(0x708));
}

#[test]
fn button_operations() {
    let button = handle::<C_GtkCheckButton>(0x20);
    assert_eq!(button.clicked(), call(Symbol::GtkButtonClicked, vec![Arg::Pointer(0x20)]));
    assert_eq!(button.pressed(), call(Symbol::GtkButtonPressed, vec![Arg::Pointer(0x20)]));
    assert_eq!(
        button.set_label("Exit"),
        call(Symbol::GtkButtonSetLabel, vec![Arg::Pointer(0x20), text("Exit")])
    );
    assert_eq!(
        button.set_relief(ReliefStyle::Flat),
        call(Symbol::GtkButtonSetRelief, vec![Arg::Pointer(0x20), Arg::Int(2)])
    );
    assert_eq!(
        button.set_image_position(PositionType::Bottom),
        call(Symbol::GtkButtonSetImagePosition, vec![Arg::Pointer(0x20), Arg::Int(3)])
    );
    let image = handle::<C_GtkWidget>(0x28);
    assert_eq!(
        button.set_image(&image),
        call(Symbol::GtkButtonSetImage, vec![Arg::Pointer(0x20), Arg::Pointer(0x28)])
    );
    assert_eq!(
        button.set_use_underline(true),
        call(Symbol::GtkButtonSetUseUnderline, vec![Arg::Pointer(0x20), Arg::Int(1)])
    );
    assert_eq!(ReliefStyle::from_glib(0), Some(ReliefStyle::Normal));
    assert_eq!(ReliefStyle::from_glib(3), None);
}

#[test]
fn about_dialog_operations() {
    let about = handle::<rgtk::gtk::ffi::C_GtkAboutDialog>(0x90);
    assert_eq!(
        About::set_program_name(&about, "rgtk"),
        call(Symbol::GtkAboutDialogSetProgramName, vec![Arg::Pointer(0x90), text("rgtk")])
    );
    assert_eq!(
        About::get_program_name(&about),
        call(Symbol::GtkAboutDialogGetProgramName, vec![Arg::Pointer(0x90)])
    );
    assert_eq!(
        About::set_wrap_license(&about, true),
        call(Symbol::GtkAboutDialogSetWrapLicense, vec![Arg::Pointer(0x90), Arg::Int(1)])
    );
    assert_eq!(
        About::get_authors(&about),
        call(Symbol::GtkAboutDialogGetAuthors, vec![Arg::Pointer(0x90)])
    );
    assert_eq!(
        About::set_website_label(&about, "home"),
        call(Symbol::GtkAboutDialogSetWebsiteLabel, vec![Arg::Pointer(0x90), text("home")])
    );
}

#[test]
fn grids_frames_and_radio_buttons() {
    assert_eq!(Grid::new(), call(Symbol::GtkGridNew, vec![]));
    let grid = Grid::check_pointer(Ptr::new(0x100)).unwrap();
    let child = Widget::wrap(Ptr::new(0x200));
    let sibling = Widget::wrap(Ptr::new(0x300));
    assert_eq!(
        grid.attach(&child, 1, 2, 3, 4),
        call(
            Symbol::GtkGridAttach,
            vec![
                Arg::Pointer(0x100),
                Arg::Pointer(0x200),
                Arg::Int(1),
                Arg::Int(2),
                Arg::Int(3),
                Arg::Int(4)
            ]
        )
    );
    assert_eq!(
        grid.attach_next_to(&child, &sibling, PositionType::Right, 2, 1),
        call(
            Symbol::GtkGridAttachNextTo,
            vec![
                Arg::Pointer(0x100),
                Arg::Pointer(0x200),
                Arg::Pointer(0x300),
                Arg::Int(1),
                Arg::Int(2),
                Arg::Int(1)
            ]
        )
    );
    assert_eq!(
        grid.set_row_spacing(6),
        call(Symbol::GtkGridSetRowSpacing, vec![Arg::Pointer(0x100), Arg::UInt(6)])
    );
    assert_eq!(Frame::new(Some("Frame")), call(Symbol::GtkFrameNew, vec![text("Frame")]));
    assert_eq!(Frame::new(None), call(Symbol::GtkFrameNew, vec![Arg::Pointer(0)]));
    assert_eq!(RadioButton::new(), call(Symbol::GtkRadioButtonNew, vec![Arg::Pointer(0)]));
    assert_eq!(
        RadioButton::new_with_label("One"),
        call(Symbol::GtkRadioButtonNewWithLabel, vec![Arg::Pointer(0), text("One")])
    );
    let one = RadioButton::check_pointer(Ptr::new(0x400)).unwrap();
    let two = RadioButton::check_pointer(Ptr::new(0x408)).unwrap();
    assert_eq!(
        two.join(&one),
        call(Symbol::GtkRadioButtonJoinGroup, vec![Arg::Pointer(0x408), Arg::Pointer(0x400)])
    );
    let overlay = Overlay::wrap(Ptr::new(0x500));
    assert_eq!(
        overlay.add_overlay(&child),
        call(Symbol::GtkOverlayAddOverlay, vec![Arg::Pointer(0x500), Arg::Pointer(0x200)])
    );
    let bar = MenuBar::wrap(Ptr::new(0x600));
    assert_eq!(
        bar.set_pack_direction(PackDirection::TopToBottom),
        call(Symbol::GtkMenuBarSetPackDirection, vec![Arg::Pointer(0x600), Arg::Int(2)])
    );
    let colour = ColorButton::wrap(Ptr::new(0x700));
    assert_eq!(
        colour.set_alpha(65535),
        call(Symbol::GtkColorButtonSetAlpha, vec![Arg::Pointer(0x700), Arg::UInt(65535)])
    );
    assert_eq!(
        PaperSize::get_paper_sizes(true),
        call(Symbol::GtkPaperSizeGetPaperSizes, vec![Arg::Int(1)])
    );
    assert_eq!(PaperSize::new("iso_a4"), call(Symbol::GtkPaperSizeNew, vec![text("iso_a4")]));
    let a4 = PaperSize::check_pointer(Ptr::new(0x800)).unwrap();
    let a5 = PaperSize::check_pointer(Ptr::new(0x808)).unwrap();
    assert_eq!(
        a4.is_equal(&a5),
        call(Symbol::GtkPaperSizeIsEqual, vec![Arg::Pointer(0x800), Arg::Pointer(0x808)])
    );
}

#[test]
fn error_slots_are_filled_by_calls() {
    let mut error = Error::empty();
    assert!(error.unwrap().is_null());
    assert_eq!(error.release(), None);
    assert_eq!(
        error.set(1, 2, "bad"),
        call(
            Symbol::GSetErrorLiteral,
            vec![Arg::Pointer(0), Arg::UInt(1), Arg::Int(2), text("bad")]
        )
    );
    error.assign(Ptr::new(0x710));
    assert_eq!(error.unwrap().addr, 0x710);
    let other = <Error as GlibContainer<Ptr<C_GError>>>::wrap(Ptr::new(0x720));
    assert_eq!(
        error.propagate(&other),
        call(Symbol::GPropagateError, vec![Arg::Pointer(0x710), Arg::Pointer(0x720)])
    );
    assert_eq!(error.release().unwrap().receiver(), 0x710);
}

#[test]
fn lists_give_back_what_was_handed_over() {
    let unref = |addr| call(Symbol::GObjectUnref, vec![Arg::Pointer(addr)]);
    let list =
        List::<C_GtkWidget>::new(0x900, vec![0x10, 0x20, 0x30], Links::Double, Transfer::Full);
    assert_eq!(list.len(), 3);
    assert_eq!(list.get(0).as_ptr().addr, 0x10);
    assert_eq!(list.get(2).as_ptr().addr, 0x30);
    assert_eq!(
        list.release(),
        vec![
            unref(0x10),
            unref(0x20),
            unref(0x30),
            call(Symbol::GListFree, vec![Arg::Pointer(0x900)])
        ]
    );
    let nodes =
        List::<C_GtkWidget>::new(0x900, vec![0x10, 0x20], Links::Single, Transfer::Container);
    assert_eq!(nodes.release(), vec![call(Symbol::GSListFree, vec![Arg::Pointer(0x900)])]);
    let lent = List::<C_GtkWidget>::new(0x900, vec![0x10], Links::Single, Transfer::Nothing);
    assert_eq!(lent.len(), 1);
    assert!(lent.release().is_empty());
    let empty = List::<C_GtkWidget>::new(0, vec![], Links::Double, Transfer::Full);
    assert_eq!(empty.len(), 0);
    assert_eq!(empty.release(), vec![call(Symbol::GListFree, vec![Arg::Pointer(0)])]);
}

#[test]
fn a_list_ends_at_its_first_null_item() {
    let list = List::<C_GtkWidget>::new(0x900, vec![0x10, 0, 0x30], Links::Single, Transfer::Full);
    assert_eq!(list.len(), 1);
    assert_eq!(list.get(0).as_ptr().addr, 0x10);
    assert_eq!(list.release().len(), 2);
}
