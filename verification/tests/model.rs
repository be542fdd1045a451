use rgtk::ffi::{Arg, Call, Reply, Symbol};
use rgtk::glib::traits::{AsPtr, Envelope, FromPtr, GetGType, Ptr, Recipe};
use rgtk::glib::translate::CStrBuf;
use rgtk::glib::types::ClassId;
use rgtk::gtk::box_::Box_;
use rgtk::gtk::button::Button;
use rgtk::gtk::container::ContainerTrait;
use rgtk::gtk::enums::{Orientation, WindowType};
use rgtk::gtk::ffi::{C_GtkButton, C_GtkLabel, C_GtkWidget, C_GtkWindow};
use rgtk::gtk::widget::WidgetTrait;
use rgtk::gtk::window::Window;
use rgtk::model::Toolkit;

fn initialized() -> Toolkit {
    let mut toolkit = Toolkit::new();
    toolkit.perform(&rgtk::gtk::rt::init());
    toolkit
}

fn on(symbol: Symbol, addr: usize) -> Call {
    Call { symbol, args: vec![Arg::Pointer(addr)] }
}

fn create(toolkit: &mut Toolkit, symbol: Symbol) -> usize {
    match toolkit.perform(&Call { symbol, args: vec![] }).reply {
        Reply::Pointer(p) => p,
        other => panic!("a constructor returns a pointer, not {:?}", other),
    }
}

fn make<T: GetGType>(toolkit: &mut Toolkit, recipe: Recipe<T>) -> Envelope<T> {
    let created = match toolkit.perform(recipe.create()).reply {
        Reply::Pointer(p) => p,
        other => panic!("a constructor returns a pointer, not {:?}", other),
    };
    let (envelope, calls) = recipe.complete(Ptr::new(created)).unwrap();
    for call in &calls {
        assert!(toolkit.admits(call), "{:?}", call);
        toolkit.perform(call);
    }
    envelope
}

fn connect(toolkit: &mut Toolkit, object: usize, signal: &str, user_data: usize) -> u64 {
    let call = Call {
        symbol: Symbol::GSignalConnectData,
        args: vec![
            Arg::Pointer(object),
            Arg::Str(CStrBuf::from_str(signal)),
            Arg::UInt(0),
            Arg::Pointer(user_data),
            Arg::UInt(1),
            Arg::UInt(0),
        ],
    };
    assert!(toolkit.admits(&call));
    match toolkit.perform(&call).reply {
        Reply::ULong(id) => id,
        other => panic!("connecting returns an identifier, not {:?}", other),
    }
}

#[test]
fn an_empty_toolkit_has_no_object() {
    let toolkit = Toolkit::new();
    assert!(!toolkit.is_initialized());
    assert_eq!(toolkit.object(0), None);
    assert_eq!(toolkit.object(1), None);
    assert!(!toolkit.is_live(0));
    assert!(!toolkit.is_live(1));
    assert_eq!(toolkit.handler_count(), 0);
}

#[test]
fn constructors_return_fresh_addresses() {
    let mut toolkit = initialized();
    let a = create(&mut toolkit, Symbol::GtkLabelNew);
    let b = create(&mut toolkit, Symbol::GtkLabelNew);
    assert_ne!(a, 0);
    assert_ne!(b, 0);
    assert_ne!(a, b);
    assert_eq!(toolkit.object(a).unwrap().class, ClassId::Label);
    assert_eq!(toolkit.object(a).unwrap().ref_count, 1);
    assert!(toolkit.object(a).unwrap().floating);
    assert_eq!(toolkit.object(a).unwrap().parent, 0);
}

#[test]
fn floating_reference_sink() {
    let mut toolkit = initialized();
    let label = create(&mut toolkit, Symbol::GtkLabelNew);
    let (envelope, sink) = Envelope::<C_GtkLabel>::from_floating_ptr(Ptr::new(label));
    toolkit.perform(&sink);
    let held = toolkit.object(label).unwrap();
    assert_eq!(held.ref_count, 1);
    assert!(!held.floating);
    assert!(toolkit.is_live(label));
    // dropped without ever being put into a container
    toolkit.perform(&envelope.release());
    assert_eq!(toolkit.object(label).unwrap().ref_count, 0);
    assert!(!toolkit.is_live(label));
}

#[test]
fn sinking_without_a_floating_reference_adds_one() {
    let mut toolkit = initialized();
    let label = create(&mut toolkit, Symbol::GtkLabelNew);
    toolkit.perform(&on(Symbol::GObjectRefSink, label));
    toolkit.perform(&on(Symbol::GObjectRefSink, label));
    assert_eq!(toolkit.object(label).unwrap().ref_count, 2);
    assert!(!toolkit.object(label).unwrap().floating);
}

#[test]
fn an_envelope_gives_back_what_it_took() {
    let mut toolkit = initialized();
    let label = create(&mut toolkit, Symbol::GtkLabelNew);
    let (owner, sink) = Envelope::<C_GtkLabel>::from_floating_ptr(Ptr::new(label));
    toolkit.perform(&sink);
    let before = toolkit.object(label).unwrap();

    // made from an owned pointer on an object without a floating reference
    let (second, call) = Envelope::<C_GtkLabel>::from_floating_ptr(Ptr::new(label));
    toolkit.perform(&call);
    assert_eq!(toolkit.object(label).unwrap().ref_count, before.ref_count + 1);
    toolkit.perform(&second.release());
    assert_eq!(toolkit.object(label).unwrap(), before);

    // made from a borrowed pointer
    let (third, call) = Envelope::<C_GtkLabel>::from_ptr(Ptr::new(label));
    toolkit.perform(&call);
    assert_eq!(toolkit.object(label).unwrap().ref_count, before.ref_count + 1);
    toolkit.perform(&third.release());
    assert_eq!(toolkit.object(label).unwrap(), before);

    toolkit.perform(&owner.release());
    assert!(!toolkit.is_live(label));
}

#[test]
fn a_plain_reference_leaves_the_floating_flag_alone() {
    let mut toolkit = initialized();
    let window = create(&mut toolkit, Symbol::GtkWindowNew);
    assert!(toolkit.object(window).unwrap().floating);
    let (shared, call) = Envelope::<C_GtkWindow>::from_ptr(Ptr::new(window));
    toolkit.perform(&call);
    assert!(toolkit.object(window).unwrap().floating);
    assert_eq!(toolkit.object(window).unwrap().ref_count, 2);
    toolkit.perform(&shared.release());
    assert!(toolkit.object(window).unwrap().floating);
    assert_eq!(toolkit.object(window).unwrap().ref_count, 1);
}

#[test]
fn calls_on_finalized_objects_are_not_admitted() {
    let mut toolkit = initialized();
    let label = create(&mut toolkit, Symbol::GtkLabelNew);
    toolkit.perform(&on(Symbol::GObjectUnref, label));
    assert!(!toolkit.is_live(label));
    for symbol in [
        Symbol::GObjectUnref,
        Symbol::GObjectRef,
        Symbol::GObjectRefSink,
        Symbol::GtkWidgetShowAll,
    ] {
        let call = on(symbol, label);
        assert!(!toolkit.admits(&call));
        assert!(toolkit.try_perform(&call).is_none());
    }
    assert_eq!(toolkit.object(label).unwrap().ref_count, 0);
}

#[test]
fn calls_on_unknown_addresses_are_not_admitted() {
    let mut toolkit = initialized();
    create(&mut toolkit, Symbol::GtkLabelNew);
    for addr in [0usize, 2, 77, usize::MAX] {
        assert!(!toolkit.admits(&on(Symbol::GObjectRef, addr)));
        assert!(toolkit.try_perform(&on(Symbol::GtkWidgetShowAll, addr)).is_none());
    }
}

#[test]
fn calls_need_a_receiver_of_their_class() {
    let mut toolkit = initialized();
    let button = create(&mut toolkit, Symbol::GtkButtonNewWithLabel);
    assert!(toolkit.admits(&on(Symbol::GtkWidgetShowAll, button)));
    assert!(toolkit.admits(&on(Symbol::GtkContainerGetBorderWidth, button)));
    assert!(!toolkit.admits(&on(Symbol::GtkWindowGetTitle, button)));
    assert!(!toolkit.admits(&on(Symbol::GtkDialogRun, button)));
    assert!(!toolkit.admits(&on(Symbol::GtkToggleButtonGetActive, button)));
    let check = create(&mut toolkit, Symbol::GtkCheckButtonNewWithLabel);
    assert!(toolkit.admits(&on(Symbol::GtkToggleButtonGetActive, check)));
}

#[test]
fn calls_without_a_receiver_are_always_admitted() {
    let mut toolkit = initialized();
    for call in [rgtk::gtk::rt::main(), rgtk::gtk::rt::main_quit()] {
        let outcome = toolkit.try_perform(&call).unwrap();
        assert_eq!(outcome.reply, Reply::Nothing);
        assert!(outcome.severed.is_empty());
    }
}

#[test]
fn the_toolkit_is_initialized_once_and_first() {
    let mut toolkit = Toolkit::new();
    assert!(!toolkit.is_initialized());
    let label = Call { symbol: Symbol::GtkLabelNew, args: vec![] };
    // nothing is made before the toolkit is initialized
    assert!(!toolkit.admits(&label));
    assert!(toolkit.try_perform(&label).is_none());
    assert_eq!(toolkit.object(1), None);
    let init = rgtk::gtk::rt::init();
    assert!(toolkit.admits(&init));
    toolkit.perform(&init);
    assert!(toolkit.is_initialized());
    assert!(toolkit.admits(&label));
    // and not a second time
    assert!(!toolkit.admits(&init));
    assert!(toolkit.try_perform(&init).is_none());
    assert!(toolkit.is_initialized());
}

#[test]
fn the_glue_connects_like_the_primitive() {
    let mut toolkit = initialized();
    let button = create(&mut toolkit, Symbol::GtkButtonNewWithLabel);
    let glue = Call {
        symbol: Symbol::GlueSignalConnect,
        args: vec![
            Arg::Pointer(button),
            Arg::Str(CStrBuf::from_str("clicked")),
            Arg::UInt(0),
            Arg::Pointer(0x77),
        ],
    };
    assert!(toolkit.admits(&glue));
    assert_eq!(toolkit.perform(&glue).reply, Reply::ULong(1));
    let run: Vec<usize> =
        toolkit.emission(button, b"clicked").iter().map(|h| h.user_data).collect();
    assert_eq!(run, vec![0x77]);
}

#[test]
fn downcast_failure_changes_no_count() {
    let mut toolkit = initialized();
    let button = make(&mut toolkit, Button::new_with_label("Click me!"));
    let addr = button.as_ptr().addr;
    let before = toolkit.object(addr).unwrap();
    let runtime = before.class;
    assert!(button.try_as::<C_GtkWindow>(runtime).is_none());
    assert!(button.try_as::<C_GtkButton>(runtime).is_some());
    assert_eq!(toolkit.object(addr).unwrap(), before);
    toolkit.perform(&button.release());
}

#[test]
fn what_a_downcast_yields_may_be_used() {
    let mut toolkit = initialized();
    let window = make(&mut toolkit, Window::new(WindowType::TopLevel));
    let widget: Envelope<C_GtkWidget> = window.upcast();
    let runtime = toolkit.object(widget.as_ptr().addr).unwrap().class;
    let as_window = widget.try_as::<C_GtkWindow>(runtime).unwrap();
    let calls = [
        rgtk::gtk::window::WindowTrait::set_default_size(&as_window, 350, 70),
        as_window.set_border_width(10),
        as_window.show_all(),
    ];
    for call in &calls {
        assert!(toolkit.admits(call), "{:?}", call);
        toolkit.perform(call);
    }
    toolkit.perform(&widget.release());
}

#[test]
fn adding_sinks_the_child() {
    let mut toolkit = initialized();
    let parent = make(&mut toolkit, Box_::new(Orientation::Vertical, 0));
    let child = create(&mut toolkit, Symbol::GtkLabelNew);
    let view = rgtk::glib::traits::Borrowed::<C_GtkLabel>::from_raw(Ptr::new(child));
    let add = parent.add(&view);
    assert!(toolkit.admits(&add));
    toolkit.perform(&add);
    let held = toolkit.object(child).unwrap();
    assert_eq!(held.ref_count, 1);
    assert!(!held.floating);
    assert_eq!(held.parent, parent.as_ptr().addr);
    toolkit.perform(&parent.release());
}

#[test]
fn adding_an_owned_child_adds_a_reference() {
    let mut toolkit = initialized();
    let parent = make(&mut toolkit, Box_::new(Orientation::Vertical, 0));
    let child = make(&mut toolkit, Button::new_with_label("Click me!"));
    toolkit.perform(&parent.add(&child));
    let held = toolkit.object(child.as_ptr().addr).unwrap();
    assert_eq!(held.ref_count, 2);
    assert_eq!(held.parent, parent.as_ptr().addr);
    toolkit.perform(&child.release());
    toolkit.perform(&parent.release());
}

#[test]
fn a_widget_goes_into_one_container_only() {
    let mut toolkit = initialized();
    let first = make(&mut toolkit, Box_::new(Orientation::Vertical, 0));
    let second = make(&mut toolkit, Box_::new(Orientation::Horizontal, 0));
    let child = make(&mut toolkit, Button::new_with_label("Click me!"));
    toolkit.perform(&first.add(&child));
    // already owned by `first`
    assert!(!toolkit.admits(&first.add(&child)));
    // already has a parent
    assert!(!toolkit.admits(&second.add(&child)));
    assert!(toolkit.try_perform(&second.add(&child)).is_none());
    // nor into itself
    assert!(!toolkit.admits(&second.add(&second)));
    assert_eq!(toolkit.object(child.as_ptr().addr).unwrap().parent, first.as_ptr().addr);
    // a button is no container
    let label = create(&mut toolkit, Symbol::GtkLabelNew);
    let bad = Call {
        symbol: Symbol::GtkContainerAdd,
        args: vec![Arg::Pointer(label), Arg::Pointer(second.as_ptr().addr)],
    };
    assert!(!toolkit.admits(&bad));
}

#[test]
fn the_parent_outlives_the_child_envelope() {
    let mut toolkit = initialized();
    let parent = make(&mut toolkit, Window::new(WindowType::TopLevel));
    let child = make(&mut toolkit, Button::new_with_label("Click me!"));
    let addr = child.as_ptr().addr;
    toolkit.perform(&parent.add(&child));
    toolkit.perform(&child.release());
    // the container's reference keeps the widget
    assert!(toolkit.is_live(addr));
    assert_eq!(toolkit.object(addr).unwrap().ref_count, 1);
    // a fresh envelope on the widget is in order, and so is its release
    let (again, call) = Envelope::<C_GtkButton>::from_ptr(Ptr::new(addr));
    toolkit.perform(&call);
    assert_eq!(toolkit.object(addr).unwrap().ref_count, 2);
    let release = again.release();
    assert!(toolkit.admits(&release));
    toolkit.perform(&release);
    assert!(toolkit.is_live(addr));
    // taking the widget out gives the last reference up
    let view = rgtk::glib::traits::Borrowed::<C_GtkButton>::from_raw(Ptr::new(addr));
    let remove = parent.remove(&view);
    assert!(toolkit.admits(&remove));
    toolkit.perform(&remove);
    assert!(!toolkit.is_live(addr));
    assert_eq!(toolkit.object(addr).unwrap().parent, 0);
    // what is gone cannot be released again
    assert!(!toolkit.admits(&on(Symbol::GObjectUnref, addr)));
    toolkit.perform(&parent.release());
}

#[test]
fn removing_needs_the_right_parent() {
    let mut toolkit = initialized();
    let first = make(&mut toolkit, Box_::new(Orientation::Vertical, 0));
    let second = make(&mut toolkit, Box_::new(Orientation::Vertical, 0));
    let child = make(&mut toolkit, Button::new_with_label("x"));
    assert!(!toolkit.admits(&first.remove(&child)));
    toolkit.perform(&first.add(&child));
    assert!(!toolkit.admits(&second.remove(&child)));
    assert!(toolkit.admits(&first.remove(&child)));
}

#[test]
fn connections_get_growing_identifiers() {
    let mut toolkit = initialized();
    let button = create(&mut toolkit, Symbol::GtkButtonNewWithLabel);
    let a = connect(&mut toolkit, button, "clicked", 0x100);
    let b = connect(&mut toolkit, button, "clicked", 0x200);
    let c = connect(&mut toolkit, button, "destroy", 0x300);
    assert_eq!((a, b, c), (1, 2, 3));
    assert_eq!(toolkit.handler_count(), 3);
}

#[test]
fn an_emission_runs_each_handler_once_in_connection_order() {
    let mut toolkit = initialized();
    let button = create(&mut toolkit, Symbol::GtkButtonNewWithLabel);
    let other = create(&mut toolkit, Symbol::GtkButtonNewWithLabel);
    connect(&mut toolkit, button, "clicked", 0x100);
    connect(&mut toolkit, other, "clicked", 0x150);
    connect(&mut toolkit, button, "destroy", 0x180);
    connect(&mut toolkit, button, "clicked", 0x200);
    let run = toolkit.emission(button, b"clicked");
    let data: Vec<usize> = run.iter().map(|h| h.user_data).collect();
    assert_eq!(data, vec![0x100, 0x200]);
    let ids: Vec<u64> = run.iter().map(|h| h.id).collect();
    assert_eq!(ids, vec![1, 4]);
    assert!(run.iter().all(|h| h.object == button && h.signal == b"clicked"));
    // a second emission runs them again, once each
    assert_eq!(toolkit.emission(button, b"clicked").len(), 2);
    assert_eq!(toolkit.emission(other, b"clicked").len(), 1);
    assert!(toolkit.emission(button, b"toggled").is_empty());
    assert!(toolkit.emission(0, b"clicked").is_empty());
}

#[test]
fn disconnecting_fires_the_destroy_notify_once() {
    let mut toolkit = initialized();
    let button = create(&mut toolkit, Symbol::GtkButtonNewWithLabel);
    let first = connect(&mut toolkit, button, "clicked", 0x100);
    connect(&mut toolkit, button, "clicked", 0x200);
    let disconnect = Call {
        symbol: Symbol::GSignalHandlerDisconnect,
        args: vec![Arg::Pointer(button), Arg::ULong(first)],
    };
    let outcome = toolkit.perform(&disconnect);
    let gone: Vec<usize> = outcome.severed.iter().map(|h| h.user_data).collect();
    assert_eq!(gone, vec![0x100]);
    // nothing is left to sever under that identifier
    assert!(toolkit.perform(&disconnect).severed.is_empty());
    let run: Vec<usize> =
        toolkit.emission(button, b"clicked").iter().map(|h| h.user_data).collect();
    assert_eq!(run, vec![0x200]);
}

#[test]
fn finalizing_fires_each_destroy_notify_once() {
    let mut toolkit = initialized();
    let button = create(&mut toolkit, Symbol::GtkButtonNewWithLabel);
    let other = create(&mut toolkit, Symbol::GtkButtonNewWithLabel);
    connect(&mut toolkit, button, "clicked", 0x100);
    connect(&mut toolkit, other, "clicked", 0x150);
    connect(&mut toolkit, button, "destroy", 0x200);
    toolkit.perform(&on(Symbol::GObjectRef, button));
    // not the last reference: nothing fires
    assert!(toolkit.perform(&on(Symbol::GObjectUnref, button)).severed.is_empty());
    assert_eq!(toolkit.handler_count(), 3);
    // the last reference
    let outcome = toolkit.perform(&on(Symbol::GObjectUnref, button));
    let gone: Vec<usize> = outcome.severed.iter().map(|h| h.user_data).collect();
    assert_eq!(gone, vec![0x100, 0x200]);
    assert_eq!(toolkit.handler_count(), 1);
    assert!(toolkit.emission(button, b"clicked").is_empty());
    // the other object keeps its own
    assert_eq!(toolkit.emission(other, b"clicked").len(), 1);
}

#[test]
fn other_calls_fire_no_destroy_notify() {
    let mut toolkit = initialized();
    let button = create(&mut toolkit, Symbol::GtkButtonNewWithLabel);
    connect(&mut toolkit, button, "clicked", 0x100);
    for symbol in [Symbol::GObjectRef, Symbol::GObjectRefSink, Symbol::GtkWidgetShowAll] {
        assert!(toolkit.perform(&on(symbol, button)).severed.is_empty());
    }
    assert_eq!(toolkit.handler_count(), 1);
}

#[test]
fn a_connect_call_needs_its_shape() {
    let mut toolkit = initialized();
    let button = create(&mut toolkit, Symbol::GtkButtonNewWithLabel);
    let short = Call { symbol: Symbol::GSignalConnectData, args: vec![Arg::Pointer(button)] };
    assert!(!toolkit.admits(&short));
    let wrong = Call {
        symbol: Symbol::GSignalConnectData,
        args: vec![
            Arg::Pointer(button),
            Arg::Int(1),
            Arg::UInt(0),
            Arg::Pointer(1),
            Arg::UInt(1),
            Arg::UInt(0),
        ],
    };
    assert!(!toolkit.admits(&wrong));
    assert!(toolkit.try_perform(&wrong).is_none());
    assert_eq!(toolkit.handler_count(), 0);
}
