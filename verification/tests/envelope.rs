use rgtk::ffi::{Arg, Call, Symbol};
use rgtk::glib::traits::{
    upcast_then_downcast, wrap_and_leak, AsPtr, Borrowed, C_GObject, Cast, ConstPtr, Downcast,
    Envelope, FFIGObject, FromPtr, GetGType, MutCast, MutDowncast, ObjectTrait, Ptr, Recipe,
};
use rgtk::glib::types::ClassId;
use rgtk::gtk::ffi::{C_GtkBin, C_GtkButton, C_GtkCheckButton, C_GtkWidget, C_GtkWindow};

fn unary(symbol: Symbol, addr: usize) -> Call {
    Call { symbol, args: vec![Arg::Pointer(addr)] }
}

#[test]
fn tags_name_their_classes() {
    assert_eq!(C_GObject::get_gtype(), ClassId::Object);
    assert_eq!(C_GtkWidget::get_gtype(), ClassId::Widget);
    assert_eq!(C_GtkButton::get_gtype(), ClassId::Button);
    assert_eq!(C_GtkWindow::get_gtype(), ClassId::Window);
    assert_eq!(C_GtkCheckButton::get_gtype(), ClassId::CheckButton);
}

#[test]
fn pointers_are_plain_addresses() {
    let p = Ptr::<C_GtkButton>::new(0x1000);
    assert_eq!(p.addr, 0x1000);
    assert!(!p.is_null());
    assert!(Ptr::<C_GtkButton>::null().is_null());
    assert_eq!(p.as_const().addr, 0x1000);
    assert_eq!(p.as_const().as_mut().addr, 0x1000);
    assert!(ConstPtr::<C_GtkButton>::new(0).is_null());
}

#[test]
fn upcast_keeps_the_address() {
    let button = Ptr::<C_GtkButton>::new(0x2000);
    let widget: Ptr<C_GtkWidget> = button.cast();
    assert_eq!(widget.addr, 0x2000);
    let object: Ptr<C_GObject> = button.cast();
    assert_eq!(object.addr, 0x2000);
    let same: Ptr<C_GtkButton> = button.cast();
    assert_eq!(same.addr, 0x2000);
    let read: ConstPtr<C_GtkBin> = button.as_const().cast();
    assert_eq!(read.addr, 0x2000);
}

#[test]
fn downcast_asks_the_runtime_class() {
    let widget = Ptr::<C_GtkWidget>::new(0x3000);
    let down: Option<Ptr<C_GtkButton>> = widget.try_downcast(ClassId::CheckButton);
    assert_eq!(down.map(|p| p.addr), Some(0x3000));
    let exact: Option<Ptr<C_GtkButton>> = widget.try_downcast(ClassId::Button);
    assert_eq!(exact.map(|p| p.addr), Some(0x3000));
    let too_wide: Option<Ptr<C_GtkButton>> = widget.try_downcast(ClassId::Bin);
    assert!(too_wide.is_none());
    let unrelated: Option<Ptr<C_GtkWindow>> = widget.try_downcast(ClassId::Button);
    assert!(unrelated.is_none());
}

#[test]
fn downcast_of_null_is_absent() {
    let null = Ptr::<C_GtkWidget>::null();
    let down: Option<Ptr<C_GtkButton>> = null.try_downcast(ClassId::Button);
    assert!(down.is_none());
    let read: Option<ConstPtr<C_GtkButton>> = null.as_const().try_downcast(ClassId::Button);
    assert!(read.is_none());
}

#[test]
fn const_downcast_follows_the_mutable_one() {
    let widget = ConstPtr::<C_GtkWidget>::new(0x3100);
    let down: Option<ConstPtr<C_GtkButton>> = widget.try_downcast(ClassId::Button);
    assert_eq!(down.map(|p| p.addr), Some(0x3100));
    let not: Option<ConstPtr<C_GtkWindow>> = widget.try_downcast(ClassId::Button);
    assert!(not.is_none());
    let forced: ConstPtr<C_GtkWindow> = widget.force_downcast();
    assert_eq!(forced.addr, 0x3100);
    let known: ConstPtr<C_GtkButton> = widget.downcast(ClassId::Button);
    assert_eq!(known.addr, 0x3100);
}

#[test]
fn forced_and_known_downcasts_keep_the_address() {
    let widget = Ptr::<C_GtkWidget>::new(0x3200);
    let forced: Ptr<C_GtkButton> = widget.force_downcast();
    assert_eq!(forced.addr, 0x3200);
    let known: Ptr<C_GtkButton> = widget.downcast(ClassId::ToggleButton);
    assert_eq!(known.addr, 0x3200);
}

#[test]
fn owned_construction_sinks() {
    let (button, call) = Envelope::<C_GtkButton>::from_floating_ptr(Ptr::new(0x4000));
    assert_eq!(call, unary(Symbol::GObjectRefSink, 0x4000));
    assert_eq!(button.as_ptr().addr, 0x4000);
}

#[test]
fn borrowed_construction_adds_a_reference() {
    let (button, call) = Envelope::<C_GtkButton>::from_ptr(Ptr::new(0x4100));
    assert_eq!(call, unary(Symbol::GObjectRef, 0x4100));
    assert_eq!(button.as_ptr().addr, 0x4100);
}

#[test]
fn release_gives_one_reference_up() {
    let (button, _) = Envelope::<C_GtkButton>::from_floating_ptr(Ptr::new(0x4200));
    assert_eq!(button.release(), unary(Symbol::GObjectUnref, 0x4200));
}

#[test]
fn leak_yields_the_same_pointer() {
    for addr in [1usize, 0x4300, usize::MAX] {
        let (button, _) = Envelope::<C_GtkButton>::from_floating_ptr(Ptr::new(addr));
        assert_eq!(button.leak().addr, addr);
        let (shared, _) = Envelope::<C_GtkButton>::from_ptr(Ptr::new(addr));
        assert_eq!(shared.leak().addr, addr);
        assert_eq!(wrap_and_leak(Ptr::<C_GtkButton>::new(addr)).addr, addr);
    }
}

#[test]
fn mutable_access_reads_the_same_address() {
    let (mut button, _) = Envelope::<C_GtkButton>::from_floating_ptr(Ptr::new(0x4400));
    assert_eq!(button.as_mut_ptr().addr, 0x4400);
    assert_eq!(button.as_ptr().addr, 0x4400);
}

#[test]
fn reference_counting_on_a_handle() {
    let (mut button, _) = Envelope::<C_GtkButton>::from_floating_ptr(Ptr::new(0x4500));
    assert_eq!(button.ref_(), unary(Symbol::GObjectRefSink, 0x4500));
    assert_eq!(button.unref(), unary(Symbol::GObjectUnref, 0x4500));
    assert_eq!(button.as_ptr().addr, 0x4500);
}

#[test]
fn equality_is_pointer_equality() {
    let (a, _) = Envelope::<C_GtkButton>::from_floating_ptr(Ptr::new(0x5000));
    let (b, _) = Envelope::<C_GtkButton>::from_ptr(Ptr::new(0x5000));
    let (c, _) = Envelope::<C_GtkButton>::from_ptr(Ptr::new(0x5008));
    assert!(a == b);
    assert!(a != c);
}

#[test]
fn envelope_upcast_keeps_the_address() {
    let (button, _) = Envelope::<C_GtkCheckButton>::from_floating_ptr(Ptr::new(0x5100));
    let widget: Envelope<C_GtkWidget> = button.upcast();
    assert_eq!(widget.as_ptr().addr, 0x5100);
}

#[test]
fn upcast_and_downcast_through_one_edge_is_identity() {
    let (button, _) = Envelope::<C_GtkButton>::from_floating_ptr(Ptr::new(0x5200));
    let back = upcast_then_downcast::<C_GtkButton, C_GtkWidget>(button, ClassId::Button);
    assert_eq!(back.as_ptr().addr, 0x5200);

    let (check, _) = Envelope::<C_GtkCheckButton>::from_floating_ptr(Ptr::new(0x5300));
    let widget: Envelope<C_GtkWidget> = check.upcast();
    let down = widget.try_downcast::<C_GtkCheckButton>(ClassId::CheckButton);
    assert_eq!(down.ok().map(|e| e.leak().addr), Some(0x5300));
}

#[test]
fn failed_downcast_hands_the_envelope_back() {
    let (button, _) = Envelope::<C_GtkButton>::from_floating_ptr(Ptr::new(0x5400));
    match button.try_downcast::<C_GtkWindow>(ClassId::Button) {
        Ok(_) => panic!("a button is no window"),
        Err(button) => assert_eq!(button.leak().addr, 0x5400),
    }
}

#[test]
fn try_as_views_without_owning() {
    let (widget, _) = Envelope::<C_GtkWidget>::from_floating_ptr(Ptr::new(0x5500));
    {
        let button = widget.try_as::<C_GtkButton>(ClassId::CheckButton).unwrap();
        assert_eq!(button.as_ptr().addr, 0x5500);
        let again = button.try_as::<C_GtkCheckButton>(ClassId::CheckButton).unwrap();
        assert_eq!(again.as_ptr().addr, 0x5500);
        let up: Borrowed<C_GtkWidget> = again.upcast();
        assert_eq!(up.as_ptr().addr, 0x5500);
    }
    assert!(widget.try_as::<C_GtkWindow>(ClassId::CheckButton).is_none());
    // the envelope still owns its reference
    assert_eq!(widget.release(), unary(Symbol::GObjectUnref, 0x5500));
}

#[test]
fn try_as_to_an_unrelated_type_is_absent() {
    let (button, _) = Envelope::<C_GtkButton>::from_floating_ptr(Ptr::new(0x5600));
    assert!(button.try_as::<C_GtkWindow>(ClassId::Button).is_none());
    assert!(button.borrow().try_as::<C_GtkWindow>(ClassId::Button).is_none());
    assert_eq!(button.borrow().as_ptr().addr, 0x5600);
}

#[test]
fn borrowed_views_of_returned_pointers() {
    assert!(Borrowed::<C_GtkWidget>::check_pointer(Ptr::null()).is_none());
    let view = Borrowed::<C_GtkWidget>::check_pointer(Ptr::new(0x5700)).unwrap();
    assert_eq!(view.as_ptr().addr, 0x5700);
    let raw = Borrowed::<C_GtkWidget>::from_raw(Ptr::new(0x5708));
    assert_eq!(raw.as_ptr().addr, 0x5708);
}

#[test]
fn object_handles() {
    let object = <Borrowed<C_GObject> as FFIGObject>::wrap_object(Ptr::new(0x5800));
    assert_eq!(object.get_gobject().addr, 0x5800);
}

#[test]
fn plain_recipe_sinks_what_was_made() {
    let recipe = Recipe::<C_GtkButton>::plain(Call { symbol: Symbol::GtkLabelNew, args: vec![] });
    assert_eq!(recipe.create().symbol, Symbol::GtkLabelNew);
    assert!(recipe.setup().is_empty());
    let (button, calls) = recipe.complete(Ptr::new(0x6000)).unwrap();
    assert_eq!(button.as_ptr().addr, 0x6000);
    assert_eq!(calls, vec![unary(Symbol::GObjectRefSink, 0x6000)]);
}

#[test]
fn recipe_of_a_failed_constructor_makes_nothing() {
    let recipe = Recipe::<C_GtkButton>::plain(Call { symbol: Symbol::GtkLabelNew, args: vec![] });
    assert!(recipe.complete(Ptr::null()).is_none());
}

#[test]
fn recipe_binds_its_calls_in_order() {
    let pending = |symbol: Symbol, n: i32| Call {
        symbol,
        args: vec![Arg::Pointer(0), Arg::Int(n)],
    };
    let recipe = Recipe::<C_GtkWindow>::plain(Call { symbol: Symbol::GtkWindowNew, args: vec![] })
        .followed_by(pending(Symbol::GtkWindowSetPosition, 1))
        .followed_by_all(vec![
            pending(Symbol::GtkWindowSetDefaultSize, 2),
            pending(Symbol::GtkContainerSetBorderWidth, 3),
        ])
        .followed_by(pending(Symbol::GtkWidgetShowAll, 4));
    assert_eq!(recipe.setup().len(), 4);
    let (_window, calls) = recipe.complete(Ptr::new(0x6100)).unwrap();
    let bound = |symbol: Symbol, n: i32| Call {
        symbol,
        args: vec![Arg::Pointer(0x6100), Arg::Int(n)],
    };
    assert_eq!(
        calls,
        vec![
            unary(Symbol::GObjectRefSink, 0x6100),
            bound(Symbol::GtkWindowSetPosition, 1),
            bound(Symbol::GtkWindowSetDefaultSize, 2),
            bound(Symbol::GtkContainerSetBorderWidth, 3),
            bound(Symbol::GtkWidgetShowAll, 4),
        ]
    );
}
