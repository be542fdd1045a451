//! Toplevel windows with handler objects: a handler is a value of a type that
//! implements the trait for the shape of its signal.

use crate::ffi::{Arg, ArgView, Call, CallView, Symbol};
use crate::gdk::event::{C_GdkEvent, Event};
use crate::glib::traits::{unref_call, Ptr};
use crate::glib::translate::{has_nul, lemma_ascii_no_nul};
use crate::glib::{spec_to_bool, spec_to_gboolean, to_bool, to_gboolean, Gboolean};
use crate::gtk::enums::WindowType;
use crate::gtk::ffi::{C_GtkWidget, FFIWidget};
use crate::gtk::signals::{connect_call, connect_data, Signal, Trampoline};
use crate::gtk::widgets::Widget;
use vstd::prelude::*;
use vstd::string::StringSliceAdditionalSpecFns;

verus! {

/// A handle on a toplevel window. It either owns the window, when it was made
/// from what a constructor returned, or is a view of a window that someone else
/// owns.
#[derive(Debug)]
pub struct Window {
    pointer: Ptr<C_GtkWidget>,
    can_drop: bool,
}

impl Window {
    /// Whether the handle owns the window.
    pub closed spec fn owns(&self) -> bool {
        self.can_drop
    }

    pub fn can_drop(&self) -> (b: bool)
        ensures
            b == self.owns(),
    {
        self.can_drop
    }

    /// How a window of kind `window_type` is made: the call of its constructor.
    pub fn new(window_type: WindowType) -> (call: Call)
        ensures
            call@ == (CallView {
                symbol: Symbol::GtkWindowNew,
                args: seq![ArgView::Int(window_type.spec_to_glib())],
            }),
    {
        Call::unary(Symbol::GtkWindowNew, Arg::Int(window_type.to_glib()))
    }

    /// The handle that owns the window which a constructor returned at
    /// `pointer`; `None` where the constructor failed and returned the null
    /// pointer.
    pub fn check_pointer(pointer: Ptr<C_GtkWidget>) -> (r: Option<Window>)
        ensures
            r is Some <==> pointer.addr != 0,
            r matches Some(w) ==> w.widget_addr() == pointer.addr && w.owns(),
    {
        if pointer.is_null() {
            None
        } else {
            Some(Window { pointer, can_drop: true })
        }
    }

    /// Ends the handle. A handle that owns its widget gives up its one
    /// reference; a view has none to give up.
    pub fn release(self) -> (call: Option<Call>)
        ensures
            call is Some <==> self.owns(),
            call matches Some(c) ==> c@ == unref_call(self.widget_addr()),
    {
        if self.can_drop {
            Some(Call::unary(Symbol::GObjectUnref, Arg::Pointer(self.pointer.addr)))
        } else {
            None
        }
    }

    /// The call that connects a handler to `signal`. `user_data` is the address
    /// of the box that holds the handler; the foreign side keeps it until the
    /// connection is severed, and hands it to the trampoline of the signal's
    /// shape each time the signal fires.
    pub fn connect(&mut self, signal: WindowSignal, user_data: usize) -> (call: Call)
        ensures
            call@ == connect_call(
                old(self).widget_addr(),
                signal.spec_name().spec_bytes(),
                signal.spec_shape(),
                user_data,
            ),
            final(self).widget_addr() == old(self).widget_addr(),
            final(self).owns() == old(self).owns(),
    {
        let signal_name = signal.get_signal_name();
        let trampoline = signal.get_trampoline();
        connect_data(self.pointer.addr, signal_name.as_bytes(), trampoline, user_data)
    }
}

impl FFIWidget for Window {
    closed spec fn widget_addr(&self) -> usize {
        self.pointer.addr
    }

    fn get_widget(&self) -> (p: Ptr<C_GtkWidget>) {
        self.pointer
    }

    /// A view of the window at `widget`: the handle does not own it.
    fn wrap(widget: Ptr<C_GtkWidget>) -> (r: Window)
        ensures
            !r.owns(),
    {
        Window { pointer: widget, can_drop: false }
    }
}

/// Whether `window` is a view of the window at `object`: it holds that
/// address and owns no reference.
pub open spec fn views_window(window: &Window, object: Ptr<C_GtkWidget>) -> bool {
    window.widget_addr() == object.addr && !window.owns()
}

/// Whether `widget` is a view of the widget at `address`: it holds that
/// address and owns no reference.
pub open spec fn views_widget(widget: &Widget, address: Ptr<C_GtkWidget>) -> bool {
    widget.widget_addr() == address.addr && !widget.owns()
}

/// A handler of a signal that passes nothing but the window.
pub trait WindowDefaultHandler {
    /// What one call may come to: `self` is the handler before the call and
    /// `after` the handler after it. A handler that says nothing of itself
    /// admits every outcome.
    open spec fn handles(&self, window: &Window, after: &Self) -> bool {
        true
    }

    fn callback(&mut self, window: &Window)
        ensures
            old(self).handles(window, final(self)),
    ;
}

/// A handler of a signal that passes a widget.
pub trait WindowWidgetHandler {
    /// What one call may come to: `self` is the handler before the call and
    /// `after` the handler after it. A handler that says nothing of itself
    /// admits every outcome.
    open spec fn handles(&self, window: &Window, widget: &Widget, after: &Self) -> bool {
        true
    }

    fn callback(&mut self, window: &Window, widget: &Widget)
        ensures
            old(self).handles(window, widget, final(self)),
    ;
}

/// A handler of a signal that passes an event and asks whether the event stops
/// here.
pub trait WindowBoolEventHandler {
    /// What one call may come to: `self` is the handler before the call,
    /// `after` the handler after it, and `stop` its answer. A handler that
    /// says nothing of itself admits every outcome.
    open spec fn handles(&self, window: &Window, event: &Event, after: &Self, stop: bool) -> bool {
        true
    }

    fn callback(&mut self, window: &Window, event: &Event) -> (stop: bool)
        ensures
            old(self).handles(window, event, final(self), stop),
    ;
}

/// A handler of a signal that passes a number and asks for a truth value.
pub trait WindowBoolUintHandler {
    /// What one call may come to: `self` is the handler before the call,
    /// `after` the handler after it, and `answer` its answer. A handler that
    /// says nothing of itself admits every outcome.
    open spec fn handles(&self, window: &Window, x: u32, after: &Self, answer: bool) -> bool {
        true
    }

    fn callback(&mut self, window: &Window, x: u32) -> (answer: bool)
        ensures
            old(self).handles(window, x, final(self), answer),
    ;
}

/// A handler of a signal that passes a truth value.
pub trait WindowBoolHandler {
    /// What one call may come to: `self` is the handler before the call and
    /// `after` the handler after it. A handler that says nothing of itself
    /// admits every outcome.
    open spec fn handles(&self, window: &Window, x: bool, after: &Self) -> bool {
        true
    }

    fn callback(&mut self, window: &Window, x: bool)
        ensures
            old(self).handles(window, x, final(self)),
    ;
}

/// A view of the window on which a signal fired. No reference is taken.
pub fn signal_window(object: Ptr<C_GtkWidget>) -> (window: Window)
    ensures
        views_window(&window, object),
{
    Window::wrap(object)
}

/// What the trampoline of a signal without arguments does: it views the window
/// and runs the handler once, on that view. What the handler has come to is
/// what that one call made of it.
pub fn window_default_callback<H: WindowDefaultHandler>(object: Ptr<C_GtkWidget>, handler: &mut H)
    ensures
        exists|window: Window|
            views_window(&window, object) && #[trigger] old(handler).handles(
                &window,
                final(handler),
            ),
{
    let window = signal_window(object);
    handler.callback(&window);
}

/// What the trampoline of a signal with a widget does: it views the window and
/// the widget and runs the handler once, on those views. What the handler has
/// come to is what that one call made of it.
pub fn window_widget_callback<H: WindowWidgetHandler>(
    object: Ptr<C_GtkWidget>,
    widget: Ptr<C_GtkWidget>,
    handler: &mut H,
)
    ensures
        exists|window: Window, passed: Widget|
            {
                &&& views_window(&window, object)
                &&& views_widget(&passed, widget)
                &&& #[trigger] old(handler).handles(&window, &passed, final(handler))
            },
{
    let window = signal_window(object);
    let widget = Widget::wrap(widget);
    handler.callback(&window, &widget);
}

/// What the trampoline of a signal with an event does: it views the window and
/// the event, runs the handler once on those views, and hands back the
/// handler's answer as a foreign truth value. The event must not be null.
pub fn window_bool_event_callback<H: WindowBoolEventHandler>(
    object: Ptr<C_GtkWidget>,
    event: Ptr<C_GdkEvent>,
    handler: &mut H,
) -> (r: Gboolean)
    requires
        event.addr != 0,
    ensures
        exists|window: Window, lent: Event, stop: bool|
            {
                &&& views_window(&window, object)
                &&& lent.addr() == event.addr
                &&& #[trigger] old(handler).handles(&window, &lent, final(handler), stop)
                &&& r == spec_to_gboolean(stop)
            },
{
    let window = signal_window(object);
    let event = Event::wrap(event);
    let res = handler.callback(&window, &event);
    to_gboolean(res)
}

/// What the trampoline of a signal with a number does: it views the window,
/// runs the handler once on that view and the number, and hands back the
/// handler's answer as a foreign truth value.
pub fn window_bool_uint_callback<H: WindowBoolUintHandler>(
    object: Ptr<C_GtkWidget>,
    x: u32,
    handler: &mut H,
) -> (r: Gboolean)
    ensures
        exists|window: Window, answer: bool|
            {
                &&& views_window(&window, object)
                &&& #[trigger] old(handler).handles(&window, x, final(handler), answer)
                &&& r == spec_to_gboolean(answer)
            },
{
    let window = signal_window(object);
    let res = handler.callback(&window, x);
    to_gboolean(res)
}

/// What the trampoline of a signal with a truth value does: it views the
/// window, reads the foreign truth value, and runs the handler once on that
/// view and the host boolean. What the handler has come to is what that one
/// call made of it.
pub fn window_bool_callback<H: WindowBoolHandler>(
    object: Ptr<C_GtkWidget>,
    x: Gboolean,
    handler: &mut H,
)
    ensures
        exists|window: Window|
            views_window(&window, object) && #[trigger] old(handler).handles(
                &window,
                spec_to_bool(x),
                final(handler),
            ),
{
    let window = signal_window(object);
    let b = to_bool(x);
    handler.callback(&window, b);
}

/// The signals of a window to which a handler can be connected.
#[derive(Clone, Copy, PartialEq, Eq, Structural, Debug)]
pub enum WindowSignal {
    /// `activate-default`
    ActivateDefault,
    /// `activate-focus`
    ActivateFocus,
    /// `check-resize`
    CheckResize,
    /// `accel-closure-changed`
    AccelClosureChanged,
    /// `composited-changed`
    CompositedChanged,
    /// `destroy`
    Destroy,
    /// `grab-focus`
    GrabFocus,
    /// `hide`
    Hide,
    /// `map`
    Mapped,
    /// `realize`
    Realize,
    /// `show`
    Show,
    /// `style-updated`
    StyleUpdated,
    /// `unmap`
    Unmapped,
    /// `unrealize`
    Unrealize,
    /// `set-focus`
    SetFocus,
    /// `add`
    Add,
    /// `remove`
    Remove,
    /// `set-focus-child`
    SetFocusChild,
    /// `button-press-event`
    ButtonPressEvent,
    /// `button-release-event`
    ButtonReleaseEvent,
    /// `can-activate-accel`
    CanActivateAccel,
    /// `configure-event`
    ConfigureEvent,
    /// `damage-event`
    DamageEvent,
    /// `delete-event`
    DeleteEvent,
    /// `destroy-event`
    DestroyEvent,
    /// `enter-notify-event`
    EnterNotifyEvent,
    /// `event`
    Event,
    /// `event-after`
    EventAfter,
    /// `focus-in-event`
    FocusInEvent,
    /// `focus-out-event`
    FocusOutEvent,
    /// `grab-broken-event`
    GrabBrokenEvent,
    /// `grab-notify`
    GrabNotify,
    /// `key-press-event`
    KeyPressEvent,
    /// `key-release-event`
    KeyReleaseEvent,
    /// `leave-notify-event`
    LeaveNotifyEvent,
    /// `map-event`
    MapEvent,
    /// `motion-notify-event`
    MotionNotifyEvent,
    /// `parent-set`
    ParentSet,
    /// `property-notify-event`
    PropertyNotifyEvent,
    /// `proximity-in-event`
    ProximityInEvent,
    /// `proximity-out-event`
    ProximityOutEvent,
    /// `scroll-event`
    ScrollEvent,
    /// `selection-clear-event`
    SelectionClearEvent,
    /// `selection-notify-event`
    SelectionNotifyEvent,
    /// `selection-request-event`
    SelectionRequestEvent,
    /// `touch-event`
    TouchEvent,
    /// `unmap-event`
    UnmapEvent,
    /// `visibility-notify-event`
    VisibilityNotifyEvent,
    /// `window-state-event`
    WindowStateEvent,
}

impl WindowSignal {
    /// The name of the signal in wire form.
    pub open spec fn spec_name(self) -> &'static str {
        match self {
            WindowSignal::ActivateDefault => "activate-default",
            WindowSignal::ActivateFocus => "activate-focus",
            WindowSignal::CheckResize => "check-resize",
            WindowSignal::AccelClosureChanged => "accel-closure-changed",
            WindowSignal::CompositedChanged => "composited-changed",
            WindowSignal::Destroy => "destroy",
            WindowSignal::GrabFocus => "grab-focus",
            WindowSignal::Hide => "hide",
            WindowSignal::Mapped => "map",
            WindowSignal::Realize => "realize",
            WindowSignal::Show => "show",
            WindowSignal::StyleUpdated => "style-updated",
            WindowSignal::Unmapped => "unmap",
            WindowSignal::Unrealize => "unrealize",
            WindowSignal::SetFocus => "set-focus",
            WindowSignal::Add => "add",
            WindowSignal::Remove => "remove",
            WindowSignal::SetFocusChild => "set-focus-child",
            WindowSignal::ButtonPressEvent => "button-press-event",
            WindowSignal::ButtonReleaseEvent => "button-release-event",
            WindowSignal::CanActivateAccel => "can-activate-accel",
            WindowSignal::ConfigureEvent => "configure-event",
            WindowSignal::DamageEvent => "damage-event",
            WindowSignal::DeleteEvent => "delete-event",
            WindowSignal::DestroyEvent => "destroy-event",
            WindowSignal::EnterNotifyEvent => "enter-notify-event",
            WindowSignal::Event => "event",
            WindowSignal::EventAfter => "event-after",
            WindowSignal::FocusInEvent => "focus-in-event",
            WindowSignal::FocusOutEvent => "focus-out-event",
            WindowSignal::GrabBrokenEvent => "grab-broken-event",
            WindowSignal::GrabNotify => "grab-notify",
            WindowSignal::KeyPressEvent => "key-press-event",
            WindowSignal::KeyReleaseEvent => "key-release-event",
            WindowSignal::LeaveNotifyEvent => "leave-notify-event",
            WindowSignal::MapEvent => "map-event",
            WindowSignal::MotionNotifyEvent => "motion-notify-event",
            WindowSignal::ParentSet => "parent-set",
            WindowSignal::PropertyNotifyEvent => "property-notify-event",
            WindowSignal::ProximityInEvent => "proximity-in-event",
            WindowSignal::ProximityOutEvent => "proximity-out-event",
            WindowSignal::ScrollEvent => "scroll-event",
            WindowSignal::SelectionClearEvent => "selection-clear-event",
            WindowSignal::SelectionNotifyEvent => "selection-notify-event",
            WindowSignal::SelectionRequestEvent => "selection-request-event",
            WindowSignal::TouchEvent => "touch-event",
            WindowSignal::UnmapEvent => "unmap-event",
            WindowSignal::VisibilityNotifyEvent => "visibility-notify-event",
            WindowSignal::WindowStateEvent => "window-state-event",
        }
    }

    /// The shape of the handlers of the signal.
    pub open spec fn spec_shape(self) -> Trampoline {
        match self {
            WindowSignal::ActivateDefault
            | WindowSignal::ActivateFocus
            | WindowSignal::CheckResize
            | WindowSignal::AccelClosureChanged
            | WindowSignal::CompositedChanged
            | WindowSignal::Destroy
            | WindowSignal::GrabFocus
            | WindowSignal::Hide
            | WindowSignal::Mapped
            | WindowSignal::Realize
            | WindowSignal::Show
            | WindowSignal::StyleUpdated
            | WindowSignal::Unmapped
            | WindowSignal::Unrealize => Trampoline::Void,
            WindowSignal::SetFocus
            | WindowSignal::Add
            | WindowSignal::Remove
            | WindowSignal::SetFocusChild
            | WindowSignal::ParentSet => Trampoline::Widget,
            WindowSignal::ButtonPressEvent
            | WindowSignal::ButtonReleaseEvent
            | WindowSignal::ConfigureEvent
            | WindowSignal::DamageEvent
            | WindowSignal::DeleteEvent
            | WindowSignal::DestroyEvent
            | WindowSignal::EnterNotifyEvent
            | WindowSignal::Event
            | WindowSignal::EventAfter
            | WindowSignal::FocusInEvent
            | WindowSignal::FocusOutEvent
            | WindowSignal::GrabBrokenEvent
            | WindowSignal::KeyPressEvent
            | WindowSignal::KeyReleaseEvent
            | WindowSignal::LeaveNotifyEvent
            | WindowSignal::MapEvent
            | WindowSignal::MotionNotifyEvent
            | WindowSignal::PropertyNotifyEvent
            | WindowSignal::ProximityInEvent
            | WindowSignal::ProximityOutEvent
            | WindowSignal::ScrollEvent
            | WindowSignal::SelectionClearEvent
            | WindowSignal::SelectionNotifyEvent
            | WindowSignal::SelectionRequestEvent
            | WindowSignal::TouchEvent
            | WindowSignal::UnmapEvent
            | WindowSignal::VisibilityNotifyEvent
            | WindowSignal::WindowStateEvent => Trampoline::BoolEvent,
            WindowSignal::CanActivateAccel => Trampoline::BoolUint,
            WindowSignal::GrabNotify => Trampoline::Bool,
        }
    }
}

impl Signal for WindowSignal {
    open spec fn name_bytes(&self) -> Seq<u8> {
        self.spec_name().spec_bytes()
    }

    open spec fn shape(&self) -> Trampoline {
        self.spec_shape()
    }

    fn get_signal_name(&self) -> (name: &'static str) {
        proof {
            lemma_names_hold_no_nul(*self);
        }
        match self {
            WindowSignal::ActivateDefault => "activate-default",
            WindowSignal::ActivateFocus => "activate-focus",
            WindowSignal::CheckResize => "check-resize",
            WindowSignal::AccelClosureChanged => "accel-closure-changed",
            WindowSignal::CompositedChanged => "composited-changed",
            WindowSignal::Destroy => "destroy",
            WindowSignal::GrabFocus => "grab-focus",
            WindowSignal::Hide => "hide",
            WindowSignal::Mapped => "map",
            WindowSignal::Realize => "realize",
            WindowSignal::Show => "show",
            WindowSignal::StyleUpdated => "style-updated",
            WindowSignal::Unmapped => "unmap",
            WindowSignal::Unrealize => "unrealize",
            WindowSignal::SetFocus => "set-focus",
            WindowSignal::Add => "add",
            WindowSignal::Remove => "remove",
            WindowSignal::SetFocusChild => "set-focus-child",
            WindowSignal::ButtonPressEvent => "button-press-event",
            WindowSignal::ButtonReleaseEvent => "button-release-event",
            WindowSignal::CanActivateAccel => "can-activate-accel",
            WindowSignal::ConfigureEvent => "configure-event",
            WindowSignal::DamageEvent => "damage-event",
            WindowSignal::DeleteEvent => "delete-event",
            WindowSignal::DestroyEvent => "destroy-event",
            WindowSignal::EnterNotifyEvent => "enter-notify-event",
            WindowSignal::Event => "event",
            WindowSignal::EventAfter => "event-after",
            WindowSignal::FocusInEvent => "focus-in-event",
            WindowSignal::FocusOutEvent => "focus-out-event",
            WindowSignal::GrabBrokenEvent => "grab-broken-event",
            WindowSignal::GrabNotify => "grab-notify",
            WindowSignal::KeyPressEvent => "key-press-event",
            WindowSignal::KeyReleaseEvent => "key-release-event",
            WindowSignal::LeaveNotifyEvent => "leave-notify-event",
            WindowSignal::MapEvent => "map-event",
            WindowSignal::MotionNotifyEvent => "motion-notify-event",
            WindowSignal::ParentSet => "parent-set",
            WindowSignal::PropertyNotifyEvent => "property-notify-event",
            WindowSignal::ProximityInEvent => "proximity-in-event",
            WindowSignal::ProximityOutEvent => "proximity-out-event",
            WindowSignal::ScrollEvent => "scroll-event",
            WindowSignal::SelectionClearEvent => "selection-clear-event",
            WindowSignal::SelectionNotifyEvent => "selection-notify-event",
            WindowSignal::SelectionRequestEvent => "selection-request-event",
            WindowSignal::TouchEvent => "touch-event",
            WindowSignal::UnmapEvent => "unmap-event",
            WindowSignal::VisibilityNotifyEvent => "visibility-notify-event",
            WindowSignal::WindowStateEvent => "window-state-event",
        }
    }

    fn get_trampoline(&self) -> (t: Trampoline) {
        match self {
            WindowSignal::ActivateDefault
            | WindowSignal::ActivateFocus
            | WindowSignal::CheckResize
            | WindowSignal::AccelClosureChanged
            | WindowSignal::CompositedChanged
            | WindowSignal::Destroy
            | WindowSignal::GrabFocus
            | WindowSignal::Hide
            | WindowSignal::Mapped
            | WindowSignal::Realize
            | WindowSignal::Show
            | WindowSignal::StyleUpdated
            | WindowSignal::Unmapped
            | WindowSignal::Unrealize => Trampoline::Void,
            WindowSignal::SetFocus
            | WindowSignal::Add
            | WindowSignal::Remove
            | WindowSignal::SetFocusChild
            | WindowSignal::ParentSet => Trampoline::Widget,
            WindowSignal::ButtonPressEvent
            | WindowSignal::ButtonReleaseEvent
            | WindowSignal::ConfigureEvent
            | WindowSignal::DamageEvent
            | WindowSignal::DeleteEvent
            | WindowSignal::DestroyEvent
            | WindowSignal::EnterNotifyEvent
            | WindowSignal::Event
            | WindowSignal::EventAfter
            | WindowSignal::FocusInEvent
            | WindowSignal::FocusOutEvent
            | WindowSignal::GrabBrokenEvent
            | WindowSignal::KeyPressEvent
            | WindowSignal::KeyReleaseEvent
            | WindowSignal::LeaveNotifyEvent
            | WindowSignal::MapEvent
            | WindowSignal::MotionNotifyEvent
            | WindowSignal::PropertyNotifyEvent
            | WindowSignal::ProximityInEvent
            | WindowSignal::ProximityOutEvent
            | WindowSignal::ScrollEvent
            | WindowSignal::SelectionClearEvent
            | WindowSignal::SelectionNotifyEvent
            | WindowSignal::SelectionRequestEvent
            | WindowSignal::TouchEvent
            | WindowSignal::UnmapEvent
            | WindowSignal::VisibilityNotifyEvent
            | WindowSignal::WindowStateEvent => Trampoline::BoolEvent,
            WindowSignal::CanActivateAccel => Trampoline::BoolUint,
            WindowSignal::GrabNotify => Trampoline::Bool,
        }
    }
}

/// No name of a signal holds a nul byte.
proof fn lemma_names_hold_no_nul(signal: WindowSignal)
    ensures
        !has_nul(signal.spec_name().spec_bytes()),
{
    match signal {
        WindowSignal::ActivateDefault => {
            reveal_strlit("activate-default");
            lemma_ascii_no_nul("activate-default");
        },
        WindowSignal::ActivateFocus => {
            reveal_strlit("activate-focus");
            lemma_ascii_no_nul("activate-focus");
        },
        WindowSignal::CheckResize => {
            reveal_strlit("check-resize");
            lemma_ascii_no_nul("check-resize");
        },
        WindowSignal::AccelClosureChanged => {
            reveal_strlit("accel-closure-changed");
            lemma_ascii_no_nul("accel-closure-changed");
        },
        WindowSignal::CompositedChanged => {
            reveal_strlit("composited-changed");
            lemma_ascii_no_nul("composited-changed");
        },
        WindowSignal::Destroy => {
            reveal_strlit("destroy");
            lemma_ascii_no_nul("destroy");
        },
        WindowSignal::GrabFocus => {
            reveal_strlit("grab-focus");
            lemma_ascii_no_nul("grab-focus");
        },
        WindowSignal::Hide => {
            reveal_strlit("hide");
            lemma_ascii_no_nul("hide");
        },
        WindowSignal::Mapped => {
            reveal_strlit("map");
            lemma_ascii_no_nul("map");
        },
        WindowSignal::Realize => {
            reveal_strlit("realize");
            lemma_ascii_no_nul("realize");
        },
        WindowSignal::Show => {
            reveal_strlit("show");
            lemma_ascii_no_nul("show");
        },
        WindowSignal::StyleUpdated => {
            reveal_strlit("style-updated");
            lemma_ascii_no_nul("style-updated");
        },
        WindowSignal::Unmapped => {
            reveal_strlit("unmap");
            lemma_ascii_no_nul("unmap");
        },
        WindowSignal::Unrealize => {
            reveal_strlit("unrealize");
            lemma_ascii_no_nul("unrealize");
        },
        WindowSignal::SetFocus => {
            reveal_strlit("set-focus");
            lemma_ascii_no_nul("set-focus");
        },
        WindowSignal::Add => {
            reveal_strlit("add");
            lemma_ascii_no_nul("add");
        },
        WindowSignal::Remove => {
            reveal_strlit("remove");
            lemma_ascii_no_nul("remove");
        },
        WindowSignal::SetFocusChild => {
            reveal_strlit("set-focus-child");
            lemma_ascii_no_nul("set-focus-child");
        },
        WindowSignal::ButtonPressEvent => {
            reveal_strlit("button-press-event");
            lemma_ascii_no_nul("button-press-event");
        },
        WindowSignal::ButtonReleaseEvent => {
            reveal_strlit("button-release-event");
            lemma_ascii_no_nul("button-release-event");
        },
        WindowSignal::CanActivateAccel => {
            reveal_strlit("can-activate-accel");
            lemma_ascii_no_nul("can-activate-accel");
        },
        WindowSignal::ConfigureEvent => {
            reveal_strlit("configure-event");
            lemma_ascii_no_nul("configure-event");
        },
        WindowSignal::DamageEvent => {
            reveal_strlit("damage-event");
            lemma_ascii_no_nul("damage-event");
        },
        WindowSignal::DeleteEvent => {
            reveal_strlit("delete-event");
            lemma_ascii_no_nul("delete-event");
        },
        WindowSignal::DestroyEvent => {
            reveal_strlit("destroy-event");
            lemma_ascii_no_nul("destroy-event");
        },
        WindowSignal::EnterNotifyEvent => {
            reveal_strlit("enter-notify-event");
            lemma_ascii_no_nul("enter-notify-event");
        },
        WindowSignal::Event => {
            reveal_strlit("event");
            lemma_ascii_no_nul("event");
        },
        WindowSignal::EventAfter => {
            reveal_strlit("event-after");
            lemma_ascii_no_nul("event-after");
        },
        WindowSignal::FocusInEvent => {
            reveal_strlit("focus-in-event");
            lemma_ascii_no_nul("focus-in-event");
        },
        WindowSignal::FocusOutEvent => {
            reveal_strlit("focus-out-event");
            lemma_ascii_no_nul("focus-out-event");
        },
        WindowSignal::GrabBrokenEvent => {
            reveal_strlit("grab-broken-event");
            lemma_ascii_no_nul("grab-broken-event");
        },
        WindowSignal::GrabNotify => {
            reveal_strlit("grab-notify");
            lemma_ascii_no_nul("grab-notify");
        },
        WindowSignal::KeyPressEvent => {
            reveal_strlit("key-press-event");
            lemma_ascii_no_nul("key-press-event");
        },
        WindowSignal::KeyReleaseEvent => {
            reveal_strlit("key-release-event");
            lemma_ascii_no_nul("key-release-event");
        },
        WindowSignal::LeaveNotifyEvent => {
            reveal_strlit("leave-notify-event");
            lemma_ascii_no_nul("leave-notify-event");
        },
        WindowSignal::MapEvent => {
            reveal_strlit("map-event");
            lemma_ascii_no_nul("map-event");
        },
        WindowSignal::MotionNotifyEvent => {
            reveal_strlit("motion-notify-event");
            lemma_ascii_no_nul("motion-notify-event");
        },
        WindowSignal::ParentSet => {
            reveal_strlit("parent-set");
            lemma_ascii_no_nul("parent-set");
        },
        WindowSignal::PropertyNotifyEvent => {
            reveal_strlit("property-notify-event");
            lemma_ascii_no_nul("property-notify-event");
        },
        WindowSignal::ProximityInEvent => {
            reveal_strlit("proximity-in-event");
            lemma_ascii_no_nul("proximity-in-event");
        },
        WindowSignal::ProximityOutEvent => {
            reveal_strlit("proximity-out-event");
            lemma_ascii_no_nul("proximity-out-event");
        },
        WindowSignal::ScrollEvent => {
            reveal_strlit("scroll-event");
            lemma_ascii_no_nul("scroll-event");
        },
        WindowSignal::SelectionClearEvent => {
            reveal_strlit("selection-clear-event");
            lemma_ascii_no_nul("selection-clear-event");
        },
        WindowSignal::SelectionNotifyEvent => {
            reveal_strlit("selection-notify-event");
            lemma_ascii_no_nul("selection-notify-event");
        },
        WindowSignal::SelectionRequestEvent => {
            reveal_strlit("selection-request-event");
            lemma_ascii_no_nul("selection-request-event");
        },
        WindowSignal::TouchEvent => {
            reveal_strlit("touch-event");
            lemma_ascii_no_nul("touch-event");
        },
        WindowSignal::UnmapEvent => {
            reveal_strlit("unmap-event");
            lemma_ascii_no_nul("unmap-event");
        },
        WindowSignal::VisibilityNotifyEvent => {
            reveal_strlit("visibility-notify-event");
            lemma_ascii_no_nul("visibility-notify-event");
        },
        WindowSignal::WindowStateEvent => {
            reveal_strlit("window-state-event");
            lemma_ascii_no_nul("window-state-event");
        },
    }
}

} // verus!
