//! Signals: named channels on which an object calls back into the host.
//!
//! A descriptor carries the name of a signal, the closure to run, and the
//! shape of the C prototype, which decides the trampoline that the foreign
//! side calls. Connecting hands the foreign side the address of the boxed
//! descriptor as user data; the foreign side owns the descriptor from then
//! on, and says through the destroy-notify when it is to be dropped.

use crate::ffi::{Arg, ArgView, Call, CallView, Symbol};
use crate::gdk::event::{C_GdkEvent, Event};
use crate::glib::traits::{ptr_to_object, AsPtr, Borrowed, FFIGObject, Ptr};
use crate::glib::translate::{has_nul, lemma_ascii_no_nul, CStrBuf};
use crate::glib::{to_bool, to_gboolean, Gboolean};
use crate::gtk::ffi::C_GtkWidget;
use libc::c_uint;
use vstd::prelude::*;
use vstd::string::StringSliceAdditionalSpecFns;

verus! {

/// The shapes of the C prototypes of signals. Each has one trampoline.
#[derive(Clone, Copy, PartialEq, Eq, Structural, Debug)]
pub enum Trampoline {
    /// `void (*)(object, user_data)`
    Void,
    /// `gboolean (*)(object, event, user_data)`
    BoolEvent,
    /// `gboolean (*)(object, guint, user_data)`
    BoolUint,
    /// `void (*)(object, gboolean, user_data)`
    Bool,
    /// `void (*)(object, widget, user_data)`
    Widget,
}

impl Trampoline {
    /// The number under which the foreign surface knows the trampoline.
    pub open spec fn spec_code(self) -> c_uint {
        match self {
            Trampoline::Void => 0,
            Trampoline::BoolEvent => 1,
            Trampoline::BoolUint => 2,
            Trampoline::Bool => 3,
            Trampoline::Widget => 4,
        }
    }

    #[verifier::when_used_as_spec(spec_code)]
    pub fn code(self) -> (c: c_uint)
        ensures
            c == self.spec_code(),
    {
        match self {
            Trampoline::Void => 0,
            Trampoline::BoolEvent => 1,
            Trampoline::BoolUint => 2,
            Trampoline::Bool => 3,
            Trampoline::Widget => 4,
        }
    }

    /// The trampoline with the number `code`, if there is one.
    pub fn from_code(code: c_uint) -> (t: Option<Trampoline>)
        ensures
            t is Some <==> code < 5,
            t matches Some(x) ==> x.spec_code() == code,
    {
        match code {
            0 => Some(Trampoline::Void),
            1 => Some(Trampoline::BoolEvent),
            2 => Some(Trampoline::BoolUint),
            3 => Some(Trampoline::Bool),
            4 => Some(Trampoline::Widget),
            _ => None,
        }
    }
}

/// The byte `_`.
pub const UNDERSCORE: u8 = 95;

/// The byte `-`.
pub const HYPHEN: u8 = 45;

/// A signal's name in wire form: every underscore becomes a hyphen.
pub open spec fn wire_name(name: Seq<u8>) -> Seq<u8> {
    Seq::new(
        name.len(),
        |i: int|
            if name[i] == UNDERSCORE {
                HYPHEN
            } else {
                name[i]
            },
    )
}

/// Rewrites a signal's name into wire form.
pub fn to_wire_name(name: &[u8]) -> (wire: Vec<u8>)
    ensures
        wire@ == wire_name(name@),
{
    let mut wire: Vec<u8> = Vec::with_capacity(name.len());
    let mut i: usize = 0;
    while i < name.len()
        invariant
            i <= name.len(),
            wire@ == wire_name(name@).take(i as int),
        decreases name.len() - i,
    {
        let b = name[i];
        wire.push(
            if b == UNDERSCORE {
                HYPHEN
            } else {
                b
            },
        );
        assert(wire@ =~= wire_name(name@).take(i + 1));
        i += 1;
    }
    assert(wire@ =~= wire_name(name@));
    wire
}

/// A name in wire form is its own wire form, holds no underscore, and holds
/// a nul byte only where the name did.
pub proof fn lemma_wire_name(name: Seq<u8>)
    ensures
        wire_name(wire_name(name)) == wire_name(name),
        forall|i: int| 0 <= i < name.len() ==> wire_name(name)[i] != UNDERSCORE,
        has_nul(wire_name(name)) == has_nul(name),
{
    assert(wire_name(wire_name(name)) =~= wire_name(name));
    if has_nul(name) {
        let i = choose|i: int| 0 <= i < name.len() && name[i] == 0u8;
        assert(wire_name(name)[i] == 0u8);
    }
    if has_nul(wire_name(name)) {
        let i = choose|i: int| 0 <= i < wire_name(name).len() && wire_name(name)[i] == 0u8;
        assert(name[i] == 0u8);
    }
}

/// No destroy-notify: the user data is never dropped.
pub const DESTROY_NOTIFY_NONE: c_uint = 0;

/// The destroy-notify that takes the boxed descriptor back and drops it.
pub const DESTROY_NOTIFY_DROP: c_uint = 1;

/// The handler runs before the default handler, with the object as its
/// first argument.
pub const G_CONNECT_DEFAULT: c_uint = 0;

/// The call that connects a handler: on `object`, to the signal `name` in
/// wire form, through `trampoline`, with `user_data`, with the
/// destroy-notify that drops the descriptor, in the standard order.
pub open spec fn connect_call(
    object: usize,
    name: Seq<u8>,
    trampoline: Trampoline,
    user_data: usize,
) -> CallView {
    CallView {
        symbol: Symbol::GSignalConnectData,
        args: seq![
            ArgView::Pointer(object),
            ArgView::Str(wire_name(name)),
            ArgView::UInt(trampoline.spec_code()),
            ArgView::Pointer(user_data),
            ArgView::UInt(DESTROY_NOTIFY_DROP),
            ArgView::UInt(G_CONNECT_DEFAULT),
        ],
    }
}

/// The call that severs the connection `id` of `object`.
pub open spec fn disconnect_call(object: usize, id: u64) -> CallView {
    CallView {
        symbol: Symbol::GSignalHandlerDisconnect,
        args: seq![ArgView::Pointer(object), ArgView::ULong(id)],
    }
}

/// A signal descriptor: it knows the name of its signal and the shape of
/// its handler.
pub trait Signal {
    /// The bytes of the name, with hyphens or underscores between the
    /// words.
    spec fn name_bytes(&self) -> Seq<u8>;

    /// The shape of the handler.
    spec fn shape(&self) -> Trampoline;

    /// The name, which holds no nul byte.
    fn get_signal_name(&self) -> (name: &'static str)
        ensures
            name.spec_bytes() == self.name_bytes(),
            !has_nul(name.spec_bytes()),
    ;

    fn get_trampoline(&self) -> (t: Trampoline)
        ensures
            t == self.shape(),
    ;
}

/// Builds the connect call from the parts of a descriptor.
pub fn connect_data(object: usize, name: &[u8], trampoline: Trampoline, user_data: usize) -> (call:
    Call)
    requires
        !has_nul(name@),
    ensures
        call@ == connect_call(object, name@, trampoline, user_data),
{
    let wire = to_wire_name(name);
    proof {
        lemma_wire_name(name@);
    }
    let c_str = CStrBuf::from_slice(wire.as_slice());
    let mut args: Vec<Arg> = Vec::new();
    args.push(Arg::Pointer(object));
    args.push(Arg::Str(c_str));
    args.push(Arg::UInt(trampoline.code()));
    args.push(Arg::Pointer(user_data));
    args.push(Arg::UInt(DESTROY_NOTIFY_DROP));
    args.push(Arg::UInt(G_CONNECT_DEFAULT));
    let call = Call::from_args(Symbol::GSignalConnectData, args);
    assert(call@.args =~= connect_call(object, name@, trampoline, user_data).args);
    call
}

/// Connecting descriptors to an object.
pub trait Connect_: AsPtr {
    /// The call that connects `signal` to the object. `user_data` is the
    /// address of the box that holds the descriptor; the foreign side keeps
    /// it until the connection is severed. The call returns the identifier
    /// of the connection.
    fn connect<S: Signal>(&mut self, signal: &S, user_data: usize) -> (call: Call)
        ensures
            call@ == connect_call(
                old(self).addr(),
                signal.name_bytes(),
                signal.shape(),
                user_data,
            ),
            final(self).addr() == old(self).addr(),
    ;

    /// The call that severs the connection `id`.
    fn disconnect(&mut self, id: u64) -> (call: Call)
        ensures
            call@ == disconnect_call(old(self).addr(), id),
            final(self).addr() == old(self).addr(),
    ;
}

impl<T: AsPtr> Connect_ for T {
    fn connect<S: Signal>(&mut self, signal: &S, user_data: usize) -> (call: Call) {
        let signal_name = signal.get_signal_name();
        let trampoline = signal.get_trampoline();
        let object = ptr_to_object(self.as_mut_ptr());
        connect_data(object.addr, signal_name.as_bytes(), trampoline, user_data)
    }

    fn disconnect(&mut self, id: u64) -> (call: Call) {
        let object = ptr_to_object(self.as_mut_ptr());
        Call::binary(Symbol::GSignalHandlerDisconnect, Arg::Pointer(object.addr), Arg::ULong(id))
    }
}

/// The call that connects a handler through the glue around the connect
/// macro, which supplies the destroy-notify and the standard order itself.
pub open spec fn glue_connect_call(
    object: usize,
    name: Seq<u8>,
    trampoline: Trampoline,
    user_data: usize,
) -> CallView {
    CallView {
        symbol: Symbol::GlueSignalConnect,
        args: seq![
            ArgView::Pointer(object),
            ArgView::Str(wire_name(name)),
            ArgView::UInt(trampoline.spec_code()),
            ArgView::Pointer(user_data),
        ],
    }
}

/// Connecting descriptors of one kind to a handle on an object.
pub trait Connect<S: Signal>: FFIGObject {
    /// The call that connects `signal` to the object. `user_data` is the
    /// address of the box that holds the descriptor.
    fn connect(&self, signal: &S, user_data: usize) -> (call: Call)
        ensures
            call@ == glue_connect_call(
                self.object_addr(),
                signal.name_bytes(),
                signal.shape(),
                user_data,
            ),
    ;
}

impl<S: Signal, T: FFIGObject> Connect<S> for T {
    fn connect(&self, signal: &S, user_data: usize) -> (call: Call) {
        let signal_name = signal.get_signal_name();
        let trampoline = signal.get_trampoline();
        let wire = to_wire_name(signal_name.as_bytes());
        proof {
            lemma_wire_name(signal_name.spec_bytes());
        }
        Call::quaternary(
            Symbol::GlueSignalConnect,
            Arg::Pointer(self.get_gobject().addr),
            Arg::Str(CStrBuf::from_slice(wire.as_slice())),
            Arg::UInt(trampoline.code()),
            Arg::Pointer(user_data),
        )
    }
}

/// The descriptor of `clicked`: a button was pressed and released.
pub struct Clicked<F> {
    handler: F,
}

impl<F: Fn(&Borrowed<C_GtkWidget>)> Clicked<F> {
    pub fn new(handler: F) -> (s: Self)
        ensures
            s.handler() == handler,
    {
        Clicked { handler }
    }

    /// The closure that runs.
    pub closed spec fn handler(&self) -> F {
        self.handler
    }

    /// What the trampoline does when the signal fires: it views `object`
    /// without taking a reference, and runs the closure once on that view.
    pub fn invoke(&self, object: Ptr<C_GtkWidget>)
        requires
            object.addr != 0,
            forall|w: Borrowed<C_GtkWidget>|
                w.addr() == object.addr ==> #[trigger] call_requires(self.handler(), (&w,)),
        ensures
            exists|w: Borrowed<C_GtkWidget>|
                w.addr() == object.addr && #[trigger] call_ensures(self.handler(), (&w,), ()),
    {
        let widget = Borrowed::from_raw(object);
        assert(self.handler() == self.handler);
        (self.handler)(&widget);
    }
}

impl<F: Fn(&Borrowed<C_GtkWidget>)> Signal for Clicked<F> {
    open spec fn name_bytes(&self) -> Seq<u8> {
        "clicked".spec_bytes()
    }

    open spec fn shape(&self) -> Trampoline {
        Trampoline::Void
    }

    fn get_signal_name(&self) -> (name: &'static str) {
        proof {
            reveal_strlit("clicked");
            lemma_ascii_no_nul("clicked");
        }
        "clicked"
    }

    fn get_trampoline(&self) -> (t: Trampoline) {
        Trampoline::Void
    }
}

/// The descriptor of `delete_event`: the user asked for a toplevel window
/// to be closed. The closure returns whether the event stops here.
pub struct DeleteEvent<F> {
    handler: F,
}

impl<F: Fn(&Borrowed<C_GtkWidget>, &Event) -> bool> DeleteEvent<F> {
    pub fn new(handler: F) -> (s: Self)
        ensures
            s.handler() == handler,
    {
        DeleteEvent { handler }
    }

    /// The closure that runs.
    pub closed spec fn handler(&self) -> F {
        self.handler
    }

    /// What the trampoline does when the signal fires: it views `object`
    /// and `event` without taking a reference, runs the closure once on
    /// those views, and hands back the closure's answer as a foreign truth
    /// value.
    pub fn invoke(&self, object: Ptr<C_GtkWidget>, event: Ptr<C_GdkEvent>) -> (r: Gboolean)
        requires
            object.addr != 0,
            event.addr != 0,
            forall|w: Borrowed<C_GtkWidget>, e: Event|
                w.addr() == object.addr && e.addr() == event.addr ==> #[trigger] call_requires(
                    self.handler(),
                    (&w, &e),
                ),
        ensures
            exists|w: Borrowed<C_GtkWidget>, e: Event, stop: bool|
                {
                    &&& w.addr() == object.addr
                    &&& e.addr() == event.addr
                    &&& #[trigger] call_ensures(self.handler(), (&w, &e), stop)
                    &&& r == to_gboolean(stop)
                },
    {
        let widget = Borrowed::from_raw(object);
        let lent = Event::wrap(event);
        assert(self.handler() == self.handler);
        let stop = (self.handler)(&widget, &lent);
        to_gboolean(stop)
    }
}

impl<F: Fn(&Borrowed<C_GtkWidget>, &Event) -> bool> Signal for DeleteEvent<F> {
    open spec fn name_bytes(&self) -> Seq<u8> {
        "delete_event".spec_bytes()
    }

    open spec fn shape(&self) -> Trampoline {
        Trampoline::BoolEvent
    }

    fn get_signal_name(&self) -> (name: &'static str) {
        proof {
            reveal_strlit("delete_event");
            lemma_ascii_no_nul("delete_event");
        }
        "delete_event"
    }

    fn get_trampoline(&self) -> (t: Trampoline) {
        Trampoline::BoolEvent
    }
}

/// The descriptor of `can_activate_accel`: may the accelerator that emits
/// the signal with the number `signal_id` be activated?
pub struct CanActivateAccel<F> {
    handler: F,
}

impl<F: Fn(&Borrowed<C_GtkWidget>, u32) -> bool> CanActivateAccel<F> {
    pub fn new(handler: F) -> (s: Self)
        ensures
            s.handler() == handler,
    {
        CanActivateAccel { handler }
    }

    /// The closure that runs.
    pub closed spec fn handler(&self) -> F {
        self.handler
    }

    /// What the trampoline does when the signal fires: it views `object`
    /// without taking a reference, runs the closure once on that view and
    /// `signal_id`, and hands back the closure's answer as a foreign truth
    /// value.
    pub fn invoke(&self, object: Ptr<C_GtkWidget>, signal_id: u32) -> (r: Gboolean)
        requires
            object.addr != 0,
            forall|w: Borrowed<C_GtkWidget>|
                w.addr() == object.addr ==> #[trigger] call_requires(
                    self.handler(),
                    (&w, signal_id),
                ),
        ensures
            exists|w: Borrowed<C_GtkWidget>, answer: bool|
                {
                    &&& w.addr() == object.addr
                    &&& #[trigger] call_ensures(self.handler(), (&w, signal_id), answer)
                    &&& r == to_gboolean(answer)
                },
    {
        let widget = Borrowed::from_raw(object);
        assert(self.handler() == self.handler);
        let answer = (self.handler)(&widget, signal_id);
        to_gboolean(answer)
    }
}

impl<F: Fn(&Borrowed<C_GtkWidget>, u32) -> bool> Signal for CanActivateAccel<F> {
    open spec fn name_bytes(&self) -> Seq<u8> {
        "can_activate_accel".spec_bytes()
    }

    open spec fn shape(&self) -> Trampoline {
        Trampoline::BoolUint
    }

    fn get_signal_name(&self) -> (name: &'static str) {
        proof {
            reveal_strlit("can_activate_accel");
            lemma_ascii_no_nul("can_activate_accel");
        }
        "can_activate_accel"
    }

    fn get_trampoline(&self) -> (t: Trampoline) {
        Trampoline::BoolUint
    }
}

/// The descriptor of `grab_notify`: the widget became shadowed by a grab,
/// or no longer is.
pub struct GrabNotify<F> {
    handler: F,
}

impl<F: Fn(&Borrowed<C_GtkWidget>, bool)> GrabNotify<F> {
    pub fn new(handler: F) -> (s: Self)
        ensures
            s.handler() == handler,
    {
        GrabNotify { handler }
    }

    /// The closure that runs.
    pub closed spec fn handler(&self) -> F {
        self.handler
    }

    /// What the trampoline does when the signal fires: it views `object`
    /// without taking a reference, reads the foreign truth value, and runs
    /// the closure once.
    pub fn invoke(&self, object: Ptr<C_GtkWidget>, was_grabbed: Gboolean)
        requires
            object.addr != 0,
            forall|w: Borrowed<C_GtkWidget>|
                w.addr() == object.addr ==> #[trigger] call_requires(
                    self.handler(),
                    (&w, to_bool(was_grabbed)),
                ),
        ensures
            exists|w: Borrowed<C_GtkWidget>|
                w.addr() == object.addr && #[trigger] call_ensures(
                    self.handler(),
                    (&w, to_bool(was_grabbed)),
                    (),
                ),
    {
        let widget = Borrowed::from_raw(object);
        assert(self.handler() == self.handler);
        (self.handler)(&widget, to_bool(was_grabbed));
    }
}

impl<F: Fn(&Borrowed<C_GtkWidget>, bool)> Signal for GrabNotify<F> {
    open spec fn name_bytes(&self) -> Seq<u8> {
        "grab_notify".spec_bytes()
    }

    open spec fn shape(&self) -> Trampoline {
        Trampoline::Bool
    }

    fn get_signal_name(&self) -> (name: &'static str) {
        proof {
            reveal_strlit("grab_notify");
            lemma_ascii_no_nul("grab_notify");
        }
        "grab_notify"
    }

    fn get_trampoline(&self) -> (t: Trampoline) {
        Trampoline::Bool
    }
}

/// The descriptor of `set_focus`: the focus moved to another widget of the
/// window.
pub struct SetFocus<F> {
    handler: F,
}

impl<F: Fn(&Borrowed<C_GtkWidget>, &Borrowed<C_GtkWidget>)> SetFocus<F> {
    pub fn new(handler: F) -> (s: Self)
        ensures
            s.handler() == handler,
    {
        SetFocus { handler }
    }

    /// The closure that runs.
    pub closed spec fn handler(&self) -> F {
        self.handler
    }

    /// What the trampoline does when the signal fires: it views `object`
    /// and `widget` without taking a reference, and runs the closure once
    /// on those views. Neither address may be null.
    pub fn invoke(&self, object: Ptr<C_GtkWidget>, widget: Ptr<C_GtkWidget>)
        requires
            object.addr != 0,
            widget.addr != 0,
            forall|w: Borrowed<C_GtkWidget>, f: Borrowed<C_GtkWidget>|
                w.addr() == object.addr && f.addr() == widget.addr ==> #[trigger] call_requires(
                    self.handler(),
                    (&w, &f),
                ),
        ensures
            exists|w: Borrowed<C_GtkWidget>, f: Borrowed<C_GtkWidget>|
                {
                    &&& w.addr() == object.addr
                    &&& f.addr() == widget.addr
                    &&& #[trigger] call_ensures(self.handler(), (&w, &f), ())
                },
    {
        let window = Borrowed::from_raw(object);
        let focus = Borrowed::from_raw(widget);
        assert(self.handler() == self.handler);
        (self.handler)(&window, &focus);
    }
}

impl<F: Fn(&Borrowed<C_GtkWidget>, &Borrowed<C_GtkWidget>)> Signal for SetFocus<F> {
    open spec fn name_bytes(&self) -> Seq<u8> {
        "set_focus".spec_bytes()
    }

    open spec fn shape(&self) -> Trampoline {
        Trampoline::Widget
    }

    fn get_signal_name(&self) -> (name: &'static str) {
        proof {
            reveal_strlit("set_focus");
            lemma_ascii_no_nul("set_focus");
        }
        "set_focus"
    }

    fn get_trampoline(&self) -> (t: Trampoline) {
        Trampoline::Widget
    }
}

} // verus!
