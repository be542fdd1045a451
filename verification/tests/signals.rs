use rgtk::ffi::{Arg, Call, Symbol};
use rgtk::gdk::event::{C_GdkEvent, Event};
use rgtk::glib::traits::{AsPtr, Borrowed, C_GObject, Envelope, FFIGObject, FromPtr, Ptr};
use rgtk::glib::translate::CStrBuf;
use rgtk::glib::{GFALSE, GTRUE};
use rgtk::gtk::ffi::{C_GtkButton, C_GtkWidget, FFIWidget};
use rgtk::gtk::signals::{
    connect_data, to_wire_name, CanActivateAccel, Clicked, Connect_, DeleteEvent, GrabNotify,
    SetFocus, Signal, Trampoline, DESTROY_NOTIFY_DROP, G_CONNECT_DEFAULT,
};
use rgtk::gtk::widgets::window::{
    window_bool_callback, window_bool_event_callback, window_bool_uint_callback,
    window_default_callback, window_widget_callback, Window, WindowBoolEventHandler,
    WindowBoolHandler, WindowBoolUintHandler, WindowDefaultHandler, WindowSignal,
    WindowWidgetHandler,
};
use rgtk::gtk::widgets::Widget;
use std::cell::Cell;

fn connect_call(object: usize, wire: &str, trampoline: u32, user_data: usize) -> Call {
    Call {
        symbol: Symbol::GSignalConnectData,
        args: vec![
            Arg::Pointer(object),
            Arg::Str(CStrBuf::from_str(wire)),
            Arg::UInt(trampoline),
            Arg::Pointer(user_data),
            Arg::UInt(1),
            Arg::UInt(0),
        ],
    }
}

#[test]
fn wire_names_use_hyphens() {
    assert_eq!(to_wire_name(b"delete_event"), b"delete-event".to_vec());
    assert_eq!(to_wire_name(b"delete-event"), b"delete-event".to_vec());
    assert_eq!(to_wire_name(b"button_press-event"), b"button-press-event".to_vec());
    assert_eq!(to_wire_name(b"clicked"), b"clicked".to_vec());
    assert_eq!(to_wire_name(b""), Vec::<u8>::new());
    assert_eq!(to_wire_name(b"__"), b"--".to_vec());
    assert_eq!(to_wire_name(b"notify::has_focus"), b"notify::has-focus".to_vec());
}

#[test]
fn wire_names_are_their_own_wire_form() {
    for name in ["delete_event", "a_b_c", "-_-", "plain"] {
        let once = to_wire_name(name.as_bytes());
        assert_eq!(to_wire_name(&once), once);
        assert!(!once.contains(&b'_'));
        assert_eq!(once.len(), name.len());
    }
}

#[test]
fn trampolines_have_codes() {
    let all = [
        Trampoline::Void,
        Trampoline::BoolEvent,
        Trampoline::BoolUint,
        Trampoline::Bool,
        Trampoline::Widget,
    ];
    for (i, t) in all.iter().enumerate() {
        assert_eq!(t.code(), i as u32);
        assert_eq!(Trampoline::from_code(i as u32), Some(*t));
    }
    assert_eq!(Trampoline::from_code(5), None);
    assert_eq!(Trampoline::from_code(u32::MAX), None);
}

#[test]
fn connect_constants() {
    assert_eq!(DESTROY_NOTIFY_DROP, 1);
    assert_eq!(G_CONNECT_DEFAULT, 0);
}

#[test]
fn connecting_builds_the_foreign_call() {
    let (mut button, _) = Envelope::<C_GtkButton>::from_floating_ptr(Ptr::new(0x1000));
    let signal = Clicked::new(|_: &Borrowed<C_GtkWidget>| {});
    assert_eq!(button.connect(&signal, 0xbeef), connect_call(0x1000, "clicked", 0, 0xbeef));
    assert_eq!(button.as_ptr().addr, 0x1000);
}

#[test]
fn connecting_rewrites_underscores() {
    let (mut window, _) = Envelope::<C_GtkWidget>::from_floating_ptr(Ptr::new(0x2000));
    let signal = DeleteEvent::new(|_: &Borrowed<C_GtkWidget>, _: &Event| true);
    assert_eq!(signal.get_signal_name(), "delete_event");
    assert_eq!(window.connect(&signal, 0x10), connect_call(0x2000, "delete-event", 1, 0x10));
    assert_eq!(
        connect_data(0x2000, b"delete-event", Trampoline::BoolEvent, 0x10),
        connect_call(0x2000, "delete-event", 1, 0x10)
    );
}

#[test]
fn connecting_twice_gives_two_calls_with_their_own_user_data() {
    let (mut button, _) = Envelope::<C_GtkButton>::from_floating_ptr(Ptr::new(0x1000));
    let first = Clicked::new(|_: &Borrowed<C_GtkWidget>| {});
    let second = Clicked::new(|_: &Borrowed<C_GtkWidget>| {});
    let a = button.connect(&first, 0x100);
    let b = button.connect(&second, 0x200);
    assert_ne!(a, b);
    assert_eq!(a.pointer_at(3), 0x100);
    assert_eq!(b.pointer_at(3), 0x200);
}

#[test]
fn connecting_through_the_glue() {
    let object = <Borrowed<C_GObject> as FFIGObject>::wrap_object(Ptr::new(0x3000));
    let signal = DeleteEvent::new(|_: &Borrowed<C_GtkWidget>, _: &Event| true);
    assert_eq!(
        rgtk::gtk::signals::Connect::connect(&object, &signal, 0x20),
        Call {
            symbol: Symbol::GlueSignalConnect,
            args: vec![
                Arg::Pointer(0x3000),
                Arg::Str(CStrBuf::from_str("delete-event")),
                Arg::UInt(1),
                Arg::Pointer(0x20),
            ],
        }
    );
}

#[test]
fn disconnecting_names_the_connection() {
    let (mut button, _) = Envelope::<C_GtkButton>::from_floating_ptr(Ptr::new(0x1000));
    assert_eq!(
        button.disconnect(7),
        Call {
            symbol: Symbol::GSignalHandlerDisconnect,
            args: vec![Arg::Pointer(0x1000), Arg::ULong(7)],
        }
    );
}

#[test]
fn descriptors_know_their_signal_and_shape() {
    let clicked = Clicked::new(|_: &Borrowed<C_GtkWidget>| {});
    assert_eq!(clicked.get_signal_name(), "clicked");
    assert_eq!(clicked.get_trampoline(), Trampoline::Void);
    let delete = DeleteEvent::new(|_: &Borrowed<C_GtkWidget>, _: &Event| false);
    assert_eq!(delete.get_trampoline(), Trampoline::BoolEvent);
    let accel = CanActivateAccel::new(|_: &Borrowed<C_GtkWidget>, _: u32| false);
    assert_eq!(accel.get_signal_name(), "can_activate_accel");
    assert_eq!(accel.get_trampoline(), Trampoline::BoolUint);
    let grab = GrabNotify::new(|_: &Borrowed<C_GtkWidget>, _: bool| {});
    assert_eq!(grab.get_signal_name(), "grab_notify");
    assert_eq!(grab.get_trampoline(), Trampoline::Bool);
    let focus = SetFocus::new(|_: &Borrowed<C_GtkWidget>, _: &Borrowed<C_GtkWidget>| {});
    assert_eq!(focus.get_signal_name(), "set_focus");
    assert_eq!(focus.get_trampoline(), Trampoline::Widget);
}

#[test]
fn firing_runs_the_closure_once_per_emission() {
    let runs = Cell::new(0u32);
    let seen = Cell::new(0usize);
    let signal = Clicked::new(|w: &Borrowed<C_GtkWidget>| {
        runs.set(runs.get() + 1);
        seen.set(w.as_ptr().addr);
    });
    signal.invoke(Ptr::new(0x1000));
    assert_eq!(runs.get(), 1);
    assert_eq!(seen.get(), 0x1000);
    signal.invoke(Ptr::new(0x1000));
    signal.invoke(Ptr::new(0x1008));
    assert_eq!(runs.get(), 3);
    assert_eq!(seen.get(), 0x1008);
}

#[test]
fn the_answer_of_a_closure_becomes_a_truth_value() {
    let runs = Cell::new(0u32);
    let stop = DeleteEvent::new(|w: &Borrowed<C_GtkWidget>, e: &Event| {
        runs.set(runs.get() + 1);
        assert_eq!(w.as_ptr().addr, 0x2000);
        assert_eq!(e.unwrap().addr, 0x3000);
        true
    });
    assert_eq!(stop.invoke(Ptr::new(0x2000), Ptr::new(0x3000)), GTRUE);
    assert_eq!(runs.get(), 1);
    let go_on = DeleteEvent::new(|_: &Borrowed<C_GtkWidget>, _: &Event| false);
    assert_eq!(go_on.invoke(Ptr::new(0x2000), Ptr::new(0x3000)), GFALSE);
}

#[test]
fn numbers_and_truth_values_reach_the_closure() {
    let accel = CanActivateAccel::new(|_: &Borrowed<C_GtkWidget>, id: u32| id == 42);
    assert_eq!(accel.invoke(Ptr::new(0x10), 42), GTRUE);
    assert_eq!(accel.invoke(Ptr::new(0x10), 41), GFALSE);

    let seen = Cell::new(None);
    let grab = GrabNotify::new(|_: &Borrowed<C_GtkWidget>, b: bool| seen.set(Some(b)));
    grab.invoke(Ptr::new(0x10), GTRUE);
    assert_eq!(seen.get(), Some(true));
    grab.invoke(Ptr::new(0x10), GFALSE);
    assert_eq!(seen.get(), Some(false));
    grab.invoke(Ptr::new(0x10), -1);
    assert_eq!(seen.get(), Some(true));

    let pair = Cell::new((0, 0));
    let focus = SetFocus::new(|w: &Borrowed<C_GtkWidget>, f: &Borrowed<C_GtkWidget>| {
        pair.set((w.as_ptr().addr, f.as_ptr().addr))
    });
    focus.invoke(Ptr::new(0x10), Ptr::new(0x20));
    assert_eq!(pair.get(), (0x10, 0x20));
}

#[test]
fn events_are_views_of_their_record() {
    let event = Event::wrap(Ptr::<C_GdkEvent>::new(0x3000));
    assert_eq!(event.unwrap().addr, 0x3000);
}

struct Recorder {
    windows: Vec<usize>,
    widgets: Vec<usize>,
    events: Vec<usize>,
    numbers: Vec<u32>,
    flags: Vec<bool>,
    owned: Vec<bool>,
    answer: bool,
}

fn recorder(answer: bool) -> Recorder {
    Recorder {
        windows: vec![],
        widgets: vec![],
        events: vec![],
        numbers: vec![],
        flags: vec![],
        owned: vec![],
        answer,
    }
}

impl WindowDefaultHandler for Recorder {
    fn callback(&mut self, window: &Window) {
        self.windows.push(window.get_widget().addr);
        self.owned.push(window.can_drop());
    }
}

impl WindowWidgetHandler for Recorder {
    fn callback(&mut self, window: &Window, widget: &Widget) {
        self.windows.push(window.get_widget().addr);
        self.widgets.push(widget.get_widget().addr);
        self.owned.push(widget.can_drop());
    }
}

impl WindowBoolEventHandler for Recorder {
    fn callback(&mut self, window: &Window, event: &Event) -> bool {
        self.windows.push(window.get_widget().addr);
        self.events.push(event.unwrap().addr);
        self.answer
    }
}

impl WindowBoolUintHandler for Recorder {
    fn callback(&mut self, window: &Window, x: u32) -> bool {
        self.windows.push(window.get_widget().addr);
        self.numbers.push(x);
        self.answer
    }
}

impl WindowBoolHandler for Recorder {
    fn callback(&mut self, window: &Window, x: bool) {
        self.windows.push(window.get_widget().addr);
        self.flags.push(x);
    }
}

#[test]
fn window_trampolines_run_the_handler_once_on_views() {
    let mut r = recorder(true);
    window_default_callback(Ptr::new(0x10), &mut r);
    assert_eq!(r.windows, vec![0x10]);
    assert_eq!(r.owned, vec![false]);

    let mut r = recorder(true);
    window_widget_callback(Ptr::new(0x10), Ptr::new(0x20), &mut r);
    assert_eq!((r.windows, r.widgets, r.owned), (vec![0x10], vec![0x20], vec![false]));

    let mut r = recorder(true);
    assert_eq!(window_bool_event_callback(Ptr::new(0x10), Ptr::new(0x30), &mut r), GTRUE);
    assert_eq!((r.windows, r.events), (vec![0x10], vec![0x30]));
    let mut r = recorder(false);
    assert_eq!(window_bool_event_callback(Ptr::new(0x10), Ptr::new(0x30), &mut r), GFALSE);

    let mut r = recorder(true);
    assert_eq!(window_bool_uint_callback(Ptr::new(0x10), 9, &mut r), GTRUE);
    assert_eq!(r.numbers, vec![9]);
    let mut r = recorder(false);
    assert_eq!(window_bool_uint_callback(Ptr::new(0x10), 9, &mut r), GFALSE);

    let mut r = recorder(true);
    window_bool_callback(Ptr::new(0x10), GTRUE, &mut r);
    window_bool_callback(Ptr::new(0x10), GFALSE, &mut r);
    window_bool_callback(Ptr::new(0x10), 7, &mut r);
    assert_eq!(r.flags, vec![true, false, true]);
    assert_eq!(r.windows.len(), 3);
}

#[test]
fn window_signals_have_wire_names_and_shapes() {
    let cases = [
        (WindowSignal::ActivateDefault, "activate-default", Trampoline::Void),
        (WindowSignal::Destroy, "destroy", Trampoline::Void),
        (WindowSignal::Mapped, "map", Trampoline::Void),
        (WindowSignal::Unmapped, "unmap", Trampoline::Void),
        (WindowSignal::SetFocus, "set-focus", Trampoline::Widget),
        (WindowSignal::ParentSet, "parent-set", Trampoline::Widget),
        (WindowSignal::DeleteEvent, "delete-event", Trampoline::BoolEvent),
        (WindowSignal::ButtonPressEvent, "button-press-event", Trampoline::BoolEvent),
        (WindowSignal::WindowStateEvent, "window-state-event", Trampoline::BoolEvent),
        (WindowSignal::CanActivateAccel, "can-activate-accel", Trampoline::BoolUint),
        (WindowSignal::GrabNotify, "grab-notify", Trampoline::Bool),
    ];
    for (signal, name, shape) in cases {
        assert_eq!(signal.get_signal_name(), name);
        assert_eq!(signal.get_trampoline(), shape);
        assert!(!name.contains('_'));
    }
}

#[test]
fn a_window_connects_by_signal() {
    let mut window = Window::check_pointer(Ptr::new(0x40)).unwrap();
    assert_eq!(
        window.connect(WindowSignal::DeleteEvent, 0x500),
        connect_call(0x40, "delete-event", 1, 0x500)
    );
    assert_eq!(
        window.connect(WindowSignal::GrabNotify, 0x508),
        connect_call(0x40, "grab-notify", 3, 0x508)
    );
    assert!(window.can_drop());
    assert_eq!(window.get_widget().addr, 0x40);
    assert_eq!(
        window.release(),
        Some(Call { symbol: Symbol::GObjectUnref, args: vec![Arg::Pointer(0x40)] })
    );
    assert_eq!(Window::wrap(Ptr::new(0x40)).release(), None);
}
