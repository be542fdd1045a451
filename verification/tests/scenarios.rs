use rgtk::ffi::{Call, Reply, Symbol};
use rgtk::gdk::event::Event;
use rgtk::glib::to_bool;
use rgtk::glib::traits::{AsPtr, Borrowed, Envelope, GetGType, Ptr, Recipe};
use rgtk::glib::translate::{from_glib, FromGlib};
use rgtk::gtk::box_::Box_;
use rgtk::gtk::button::Button;
use rgtk::gtk::check_button::CheckButton;
use rgtk::gtk::container::ContainerTrait;
use rgtk::gtk::dialog::{Buttons, DialogTrait, Message, Response};
use rgtk::gtk::enums::{MessageType, Orientation, WindowType};
use rgtk::gtk::ffi::C_GtkWidget;
use rgtk::gtk::signals::{to_wire_name, Clicked, Connect_, DeleteEvent, Signal};
use rgtk::gtk::toggle_button::ToggleButtonTrait;
use rgtk::gtk::widget::WidgetTrait;
use rgtk::gtk::window::{Window, WindowTrait};
use rgtk::model::Toolkit;
use std::cell::Cell;

/// Stands where the foreign calls are made: it carries each call out on the
/// model and keeps the log of what was called.
struct Driver {
    toolkit: Toolkit,
    log: Vec<Symbol>,
    dropped: Vec<usize>,
}

impl Driver {
    fn new() -> Driver {
        let mut driver = Driver { toolkit: Toolkit::new(), log: vec![], dropped: vec![] };
        driver.perform(&rgtk::gtk::rt::init());
        driver
    }

    fn perform(&mut self, call: &Call) -> Reply {
        assert!(self.toolkit.admits(call), "not defined: {:?}", call);
        let outcome = self.toolkit.perform(call);
        self.log.push(call.symbol);
        self.dropped.extend(outcome.severed.iter().map(|h| h.user_data));
        outcome.reply
    }

    fn make<T: GetGType>(&mut self, recipe: Recipe<T>) -> Envelope<T> {
        let created = match self.perform(recipe.create()) {
            Reply::Pointer(p) => p,
            other => panic!("a constructor returns a pointer, not {:?}", other),
        };
        let (envelope, calls) = recipe.complete(Ptr::new(created)).unwrap();
        for call in &calls {
            self.perform(call);
        }
        envelope
    }

    fn connect<H, S>(&mut self, object: &mut H, signal: &S, user_data: usize) -> u64
    where
        H: AsPtr,
        S: Signal,
    {
        match self.perform(&object.connect(signal, user_data)) {
            Reply::ULong(id) => id,
            other => panic!("connecting returns an identifier, not {:?}", other),
        }
    }

    /// The user data of the handlers that an emission runs, in order.
    fn emit(&self, object: usize, signal: &str) -> Vec<usize> {
        let wire = to_wire_name(signal.as_bytes());
        self.toolkit.emission(object, &wire).iter().map(|h| h.user_data).collect()
    }

    fn live_objects(&self) -> usize {
        (1..100).filter(|a| self.toolkit.is_live(*a)).count()
    }
}

#[test]
fn window_button_and_quit_on_delete_event() {
    let mut driver = Driver::new();
    let mut window = driver.make(Window::new(WindowType::TopLevel));
    driver.perform(&window.set_title("First GTK+ Program"));
    driver.perform(&window.set_border_width(10));
    driver.perform(&window.set_default_size(350, 70));
    let button = driver.make(Button::new_with_label("Click me!"));
    driver.perform(&window.add(&button));

    let quits = Cell::new(0u32);
    let fired = Cell::new(0u32);
    let on_delete = DeleteEvent::new(|_: &Borrowed<C_GtkWidget>, _: &Event| {
        fired.set(fired.get() + 1);
        quits.set(quits.get() + 1);
        true
    });
    driver.connect(&mut window, &on_delete, 0xd0);
    driver.perform(&window.show_all());
    driver.perform(&rgtk::gtk::rt::main());

    // the user closes the window
    let window_addr = window.as_ptr().addr;
    let run = driver.emit(window_addr, "delete-event");
    assert_eq!(run, vec![0xd0]);
    for _ in run {
        assert!(to_bool(on_delete.invoke(Ptr::new(window_addr), Ptr::new(0xe0))));
    }
    assert_eq!(fired.get(), 1);
    assert_eq!(quits.get(), 1);
    driver.perform(&rgtk::gtk::rt::main_quit());

    // shutdown: every envelope gives its reference up
    let button_addr = button.as_ptr().addr;
    driver.perform(&button.release());
    assert!(driver.toolkit.is_live(button_addr));
    let view = Borrowed::<C_GtkWidget>::from_raw(Ptr::new(button_addr));
    driver.perform(&window.remove(&view));
    driver.perform(&window.release());
    assert_eq!(driver.live_objects(), 0);
    // the descriptor was handed back exactly once
    assert_eq!(driver.dropped, vec![0xd0]);
    assert_eq!(
        driver.log,
        vec![
            Symbol::GtkInit,
            Symbol::GtkWindowNew,
            Symbol::GObjectRefSink,
            Symbol::GtkWindowSetTitle,
            Symbol::GtkContainerSetBorderWidth,
            Symbol::GtkWindowSetDefaultSize,
            Symbol::GtkButtonNewWithLabel,
            Symbol::GObjectRefSink,
            Symbol::GtkContainerAdd,
            Symbol::GSignalConnectData,
            Symbol::GtkWidgetShowAll,
            Symbol::GtkMain,
            Symbol::GtkMainQuit,
            Symbol::GObjectUnref,
            Symbol::GtkContainerRemove,
            Symbol::GObjectUnref,
        ]
    );
}

#[test]
fn checkbox_gated_quit() {
    let mut driver = Driver::new();
    let window = driver.make(Window::new(WindowType::TopLevel));
    let vbox = driver.make(Box_::new(Orientation::Vertical, 0));
    let check = driver.make(CheckButton::new_with_label("Exit"));
    let mut button = driver.make(Button::new_with_label("Click me!"));
    driver.perform(&vbox.add(&check));
    driver.perform(&vbox.add(&button));
    driver.perform(&window.add(&vbox));

    // the state of the checkbox, as the foreign side would report it
    let active = Cell::new(0);
    let quits = Cell::new(0u32);
    let asked = check.get_active();
    assert_eq!(asked.symbol, Symbol::GtkToggleButtonGetActive);
    assert_eq!(asked.receiver(), check.as_ptr().addr);
    let on_click = Clicked::new(|_: &Borrowed<C_GtkWidget>| {
        if to_bool(active.get()) {
            quits.set(quits.get() + 1);
        }
    });
    driver.connect(&mut button, &on_click, 0xc0);
    driver.perform(&window.show_all());

    let button_addr = button.as_ptr().addr;
    let click = |driver: &Driver| {
        for _ in driver.emit(button_addr, "clicked") {
            on_click.invoke(Ptr::new(button_addr));
        }
    };
    // clicks while unchecked have no effect
    click(&driver);
    click(&driver);
    assert_eq!(quits.get(), 0);
    // a click while checked quits
    active.set(1);
    click(&driver);
    assert_eq!(quits.get(), 1);
}

#[test]
fn modal_message_dialog_round() {
    let mut driver = Driver::new();
    let window = driver.make(Window::new(WindowType::TopLevel));
    let dialog = driver.make(Message::new(
        Some(&window),
        MessageType::Info,
        Buttons::OkCancel,
        "This is a trap !",
    ));
    let class = driver.toolkit.object(dialog.as_ptr().addr).unwrap().class;
    assert_eq!(class, rgtk::glib::types::ClassId::MessageDialog);
    assert_eq!(driver.perform(&dialog.run()), Reply::Nothing);
    // the user clicks one button or the other
    let ok: Response = from_glib(-5);
    let cancel = Response::from_glib(-6);
    assert_eq!((ok, cancel), (Response::Okay, Response::Cancel));
    // the dialog is disposed by the caller's drop
    let addr = dialog.as_ptr().addr;
    driver.perform(&dialog.release());
    assert!(!driver.toolkit.is_live(addr));
    driver.perform(&window.release());
    assert_eq!(driver.live_objects(), 0);
}

#[test]
fn signal_reconnection_safety() {
    let mut driver = Driver::new();
    let mut button = driver.make(Button::new_with_label("Click me!"));
    let order = std::cell::RefCell::new(Vec::new());
    let first = Clicked::new(|_: &Borrowed<C_GtkWidget>| order.borrow_mut().push("first"));
    let second = Clicked::new(|_: &Borrowed<C_GtkWidget>| order.borrow_mut().push("second"));
    let a = driver.connect(&mut button, &first, 0x1);
    let b = driver.connect(&mut button, &second, 0x2);
    assert!(a < b);
    let addr = button.as_ptr().addr;
    // fire it once
    for user_data in driver.emit(addr, "clicked") {
        match user_data {
            0x1 => first.invoke(Ptr::new(addr)),
            0x2 => second.invoke(Ptr::new(addr)),
            other => panic!("no descriptor at {:#x}", other),
        }
    }
    assert_eq!(*order.borrow(), vec!["first", "second"]);
    driver.perform(&button.release());
    assert_eq!(driver.dropped, vec![0x1, 0x2]);
}
