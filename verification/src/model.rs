//! What the toolkit keeps of the objects it owns, as far as the bridge
//! relies on it: for each object its class, its reference count, whether its
//! first reference still floats, and its parent container; and for each
//! signal connection its owner, its signal and its user data.
//!
//! [`State::step`] says what a [`Call`] does to that state, and
//! [`State::admits`] on which states the call is defined. [`Toolkit`]
//! carries the same steps out on plain values, so that a sequence of calls
//! can be run without the toolkit.

use crate::ffi::{Arg, Call, CallView, Reply, Symbol};
use crate::glib::traits::{GetGType, IsA};
use crate::glib::translate::{bytes_eq, copy_bytes};
use crate::glib::types::{is_a, lemma_is_a_rooted, lemma_is_a_transitive, type_is_a, ClassId};
use libc::c_uint;
use vstd::prelude::*;

verus! {

/// What the foreign side keeps of one object.
#[derive(Clone, Copy, Debug, PartialEq, Eq, Structural)]
pub struct Object {
    pub class: ClassId,
    /// The number of references; the object is finalized when it gets to
    /// zero.
    pub ref_count: u32,
    /// Whether the first reference has no owner yet.
    pub floating: bool,
    /// The address of the container that holds the object; zero for none.
    pub parent: usize,
}

impl Object {
    /// An object as its constructor returns it: one reference, which floats
    /// where the class descends from `InitiallyUnowned`.
    pub open spec fn fresh(class: ClassId) -> Object {
        Object {
            class,
            ref_count: 1,
            floating: is_a(class, ClassId::InitiallyUnowned),
            parent: 0,
        }
    }

    /// Whether the object has not been finalized.
    pub open spec fn live(self) -> bool {
        self.ref_count > 0
    }

    /// The number of references that have an owner: all but a floating one.
    pub open spec fn owned(self) -> int {
        if self.floating {
            self.ref_count - 1
        } else {
            self.ref_count as int
        }
    }

    /// The object after `g_object_ref`.
    pub open spec fn after_ref(self) -> Object {
        Object { ref_count: (self.ref_count + 1) as u32, ..self }
    }

    /// The object after `g_object_ref_sink`: a floating reference gets its
    /// owner; without one, a reference is added.
    pub open spec fn after_ref_sink(self) -> Object {
        if self.floating {
            Object { floating: false, ..self }
        } else {
            self.after_ref()
        }
    }

    /// The object after `g_object_unref`.
    pub open spec fn after_unref(self) -> Object {
        Object {
            ref_count: (self.ref_count - 1) as u32,
            floating: self.floating && self.ref_count > 1,
            ..self
        }
    }
}

/// One signal connection, as contracts see it.
pub struct HandlerView {
    /// The identifier that the connect call returned.
    pub id: u64,
    /// The address of the object that owns the connection.
    pub object: usize,
    /// The signal's name in wire form.
    pub signal: Seq<u8>,
    /// Which trampoline the foreign side calls.
    pub trampoline: c_uint,
    /// The address of the boxed descriptor.
    pub user_data: usize,
}

/// One signal connection.
#[derive(Debug, Clone, PartialEq, Eq)]
pub struct Handler {
    pub id: u64,
    pub object: usize,
    pub signal: Vec<u8>,
    pub trampoline: c_uint,
    pub user_data: usize,
}

impl View for Handler {
    type V = HandlerView;

    open spec fn view(&self) -> HandlerView {
        HandlerView {
            id: self.id,
            object: self.object,
            signal: self.signal@,
            trampoline: self.trampoline,
            user_data: self.user_data,
        }
    }
}

/// The views of a list of connections, in order.
pub open spec fn handler_views(handlers: Seq<Handler>) -> Seq<HandlerView> {
    Seq::new(handlers.len(), |i: int| handlers[i]@)
}

/// The connections that `object` owns.
pub open spec fn owned_by(object: usize) -> spec_fn(HandlerView) -> bool {
    |h: HandlerView| h.object == object
}

/// The connections that `object` does not own.
pub open spec fn not_owned_by(object: usize) -> spec_fn(HandlerView) -> bool {
    |h: HandlerView| h.object != object
}

/// The connections of `object` to `signal`.
pub open spec fn listens(object: usize, signal: Seq<u8>) -> spec_fn(HandlerView) -> bool {
    |h: HandlerView| h.object == object && h.signal == signal
}

/// The connection `id` of `object`.
pub open spec fn is_connection(object: usize, id: u64) -> spec_fn(HandlerView) -> bool {
    |h: HandlerView| h.object == object && h.id == id
}

/// Every connection but `id` of `object`.
pub open spec fn not_connection(object: usize, id: u64) -> spec_fn(HandlerView) -> bool {
    |h: HandlerView| !(h.object == object && h.id == id)
}

/// Whether the connections stand in the order in which they were made:
/// identifiers grow along the list.
pub open spec fn in_connection_order(handlers: Seq<HandlerView>) -> bool {
    forall|i: int, j: int| 0 <= i < j < handlers.len() ==> handlers[i].id < handlers[j].id
}

/// The state of the foreign side.
pub struct State {
    /// The objects ever made; the object at address `a` is `objects[a - 1]`.
    pub objects: Seq<Object>,
    /// The connections that have not been severed, oldest first.
    pub handlers: Seq<HandlerView>,
    /// The number of connections ever made.
    pub connections: u64,
    /// Whether the toolkit has been initialized.
    pub initialized: bool,
}

impl State {
    /// Whether `addr` is the address of an object that has not been
    /// finalized.
    pub open spec fn live(self, addr: usize) -> bool {
        1 <= addr <= self.objects.len() && self.objects[addr - 1].live()
    }

    /// The object at `addr`.
    pub open spec fn object(self, addr: usize) -> Object
        recommends
            1 <= addr <= self.objects.len(),
    {
        self.objects[addr - 1]
    }

    /// What always holds of the state: every connection belongs to a live
    /// object, and the connections stand in the order in which they were
    /// made, under identifiers that were given out.
    pub open spec fn wf(self) -> bool {
        &&& in_connection_order(self.handlers)
        &&& forall|i: int|
            0 <= i < self.handlers.len() ==> {
                &&& 1 <= (#[trigger] self.handlers[i]).id <= self.connections
                &&& self.live(self.handlers[i].object)
            }
    }

    /// The state with `object` in place of the object at `addr`.
    pub open spec fn with_object(self, addr: usize, object: Object) -> State {
        State { objects: self.objects.update(addr - 1, object), ..self }
    }

    /// The state after one reference to the object at `addr` was given up.
    /// With the last reference the object is finalized and its connections
    /// are severed.
    pub open spec fn unref(self, addr: usize) -> State {
        let after = self.object(addr).after_unref();
        State {
            handlers: if after.live() {
                self.handlers
            } else {
                self.handlers.filter(not_owned_by(addr))
            },
            ..self.with_object(addr, after)
        }
    }

    /// The connections that are severed when one reference to the object at
    /// `addr` is given up: all of the object's, if that was its last.
    pub open spec fn severed_by_unref(self, addr: usize) -> Seq<HandlerView> {
        if self.object(addr).after_unref().live() {
            Seq::empty()
        } else {
            self.handlers.filter(owned_by(addr))
        }
    }

    /// The handlers that run when the object at `object` emits `signal`, in
    /// the order in which they run.
    pub open spec fn emission(self, object: usize, signal: Seq<u8>) -> Seq<HandlerView> {
        self.handlers.filter(listens(object, signal))
    }

    /// Whether the call's arguments begin as those of a connect call do:
    /// the object, the name of the signal, the trampoline, the user data.
    pub open spec fn connect_shape(call: CallView) -> bool {
        &&& call.args.len() >= 4
        &&& call.args[1] is Str
        &&& call.args[2] is UInt
        &&& call.args[3] is Pointer
    }

    /// Whether `call` is defined on this state. The toolkit is initialized
    /// once, and before any object is made. A call on an object is defined
    /// only if the object is live and belongs to the class on which the
    /// entry point works.
    pub open spec fn admits(self, call: CallView) -> bool {
        let recv = call.receiver();
        let child = call.pointer_at(1);
        if call.symbol.spec_creates() is Some {
            self.initialized && self.objects.len() < usize::MAX
        } else if call.symbol == Symbol::GtkInit {
            !self.initialized
        } else if call.symbol.spec_receiver_class() is Some {
            &&& self.live(recv)
            &&& is_a(self.object(recv).class, call.symbol.spec_receiver_class().unwrap())
            &&& match call.symbol {
                Symbol::GObjectRefSink => self.object(recv).floating || self.object(recv).ref_count
                    < u32::MAX,
                Symbol::GObjectRef => self.object(recv).ref_count < u32::MAX,
                Symbol::GSignalConnectData | Symbol::GlueSignalConnect => self.connections
                    < u64::MAX && Self::connect_shape(call),
                Symbol::GSignalHandlerDisconnect => call.args.len() == 2 && call.args[1] is ULong,
                Symbol::GtkContainerAdd => {
                    &&& self.live(child)
                    &&& child != recv
                    &&& is_a(self.object(child).class, ClassId::Widget)
                    &&& self.object(child).parent == 0
                    &&& (self.object(child).floating || self.object(child).ref_count < u32::MAX)
                },
                Symbol::GtkContainerRemove => {
                    &&& self.live(child)
                    &&& child != recv
                    &&& self.object(child).parent == recv
                },
                _ => true,
            }
        } else {
            true
        }
    }

    /// The state after `call`.
    pub open spec fn step(self, call: CallView) -> State {
        let recv = call.receiver();
        let child = call.pointer_at(1);
        if call.symbol.spec_creates() is Some {
            State {
                objects: self.objects.push(Object::fresh(call.symbol.spec_creates().unwrap())),
                ..self
            }
        } else {
            match call.symbol {
                Symbol::GObjectRefSink => self.with_object(
                    recv,
                    self.object(recv).after_ref_sink(),
                ),
                Symbol::GObjectRef => self.with_object(recv, self.object(recv).after_ref()),
                Symbol::GObjectUnref => self.unref(recv),
                Symbol::GSignalConnectData | Symbol::GlueSignalConnect => State {
                    handlers: self.handlers.push(
                        HandlerView {
                            id: (self.connections + 1) as u64,
                            object: recv,
                            signal: call.string_at(1),
                            trampoline: call.uint_at(2),
                            user_data: call.pointer_at(3),
                        },
                    ),
                    connections: (self.connections + 1) as u64,
                    ..self
                },
                Symbol::GSignalHandlerDisconnect => State {
                    handlers: self.handlers.filter(not_connection(recv, call.ulong_at(1))),
                    ..self
                },
                Symbol::GtkContainerAdd => self.with_object(
                    child,
                    Object { parent: recv, ..self.object(child).after_ref_sink() },
                ),
                Symbol::GtkContainerRemove => self.with_object(
                    child,
                    Object { parent: 0, ..self.object(child) },
                ).unref(child),
                Symbol::GtkInit => State { initialized: true, ..self },
                _ => self,
            }
        }
    }

    /// What `call` returns, as far as the state decides it: the address of a
    /// new object, or the identifier of a new connection.
    pub open spec fn reply(self, call: CallView) -> Reply {
        if call.symbol.spec_creates() is Some {
            Reply::Pointer((self.objects.len() + 1) as usize)
        } else if call.symbol == Symbol::GSignalConnectData || call.symbol
            == Symbol::GlueSignalConnect {
            Reply::ULong((self.connections + 1) as u64)
        } else {
            Reply::Nothing
        }
    }

    /// The connections whose destroy-notify fires during `call`, oldest
    /// first. None fires during any call but those named here.
    pub open spec fn severed(self, call: CallView) -> Seq<HandlerView> {
        let recv = call.receiver();
        let child = call.pointer_at(1);
        match call.symbol {
            Symbol::GObjectUnref => self.severed_by_unref(recv),
            Symbol::GSignalHandlerDisconnect => self.handlers.filter(
                is_connection(recv, call.ulong_at(1)),
            ),
            Symbol::GtkContainerRemove => self.severed_by_unref(child),
            _ => Seq::empty(),
        }
    }
}

/// One more element at the end of a list adds itself to what a filter
/// keeps, or nothing.
pub proof fn lemma_filter_push<A>(s: Seq<A>, x: A, pred: spec_fn(A) -> bool)
    ensures
        s.push(x).filter(pred) == if pred(x) {
            s.filter(pred).push(x)
        } else {
            s.filter(pred)
        },
{
    reveal_with_fuel(Seq::filter, 2);
    assert(s.push(x).drop_last() =~= s);
}

/// A filter keeps the order of what it keeps.
pub proof fn lemma_filter_keeps_order(
    handlers: Seq<HandlerView>,
    pred: spec_fn(HandlerView) -> bool,
)
    requires
        in_connection_order(handlers),
    ensures
        in_connection_order(handlers.filter(pred)),
        forall|i: int|
            0 <= i < handlers.filter(pred).len() ==> pred(#[trigger] handlers.filter(pred)[i])
                && handlers.contains(handlers.filter(pred)[i]),
    decreases handlers.len(),
{
    if handlers.len() == 0 {
        assert(handlers.filter(pred).len() == 0) by {
            handlers.lemma_filter_len(pred);
        }
    } else {
        let front = handlers.drop_last();
        let last = handlers.last();
        lemma_filter_keeps_order(front, pred);
        assert(front.push(last) =~= handlers);
        lemma_filter_push(front, last, pred);
        let kept = front.filter(pred);
        assert forall|i: int| 0 <= i < kept.len() implies (#[trigger] kept[i]).id < last.id by {
            assert(front.contains(kept[i]));
            let k = choose|k: int| 0 <= k < front.len() && front[k] == kept[i];
            assert(handlers[k] == kept[i]);
        }
    }
}

/// Every step that a state admits keeps the state well formed.
pub proof fn lemma_step_keeps_wf(s: State, call: CallView)
    requires
        s.wf(),
        s.admits(call),
    ensures
        s.step(call).wf(),
{
    let t = s.step(call);
    let recv = call.receiver();
    let child = call.pointer_at(1);
    if call.symbol.spec_creates() is Some {
    } else {
        match call.symbol {
            Symbol::GObjectUnref => {
                lemma_filter_keeps_order(s.handlers, not_owned_by(recv));
            },
            Symbol::GtkContainerRemove => {
                lemma_filter_keeps_order(s.handlers, not_owned_by(child));
            },
            Symbol::GSignalHandlerDisconnect => {
                lemma_filter_keeps_order(s.handlers, not_connection(recv, call.ulong_at(1)));
            },
            _ => {},
        }
        assert forall|i: int| 0 <= i < t.handlers.len() implies {
            &&& 1 <= (#[trigger] t.handlers[i]).id <= t.connections
            &&& t.live(t.handlers[i].object)
        } by {
            let h = t.handlers[i];
            let connects = call.symbol == Symbol::GSignalConnectData || call.symbol
                == Symbol::GlueSignalConnect;
            if connects && i == s.handlers.len() {
            } else if connects {
                assert(h == s.handlers[i]);
            } else {
                assert(s.handlers.contains(h));
                let k = choose|k: int| 0 <= k < s.handlers.len() && s.handlers[k] == h;
                assert(s.live(s.handlers[k].object));
            }
        }
    }
}

/// Whether a handle with the tag `tag` on the address `addr` tells the
/// truth: a live object stands there, and its class is `tag` or a subclass
/// of it.
pub open spec fn truthful(s: State, addr: usize, tag: ClassId) -> bool {
    s.live(addr) && is_a(s.object(addr).class, tag)
}

/// Whether `call` asks for more than a live receiver of the right class.
pub open spec fn has_further_conditions(symbol: Symbol) -> bool {
    symbol == Symbol::GObjectRefSink || symbol == Symbol::GObjectRef || symbol
        == Symbol::GSignalConnectData || symbol == Symbol::GlueSignalConnect || symbol
        == Symbol::GSignalHandlerDisconnect || symbol == Symbol::GtkContainerAdd || symbol
        == Symbol::GtkContainerRemove
}

/// A handle that tells the truth may make every call of every capability
/// set that its tag is related to: the receiver of such a call is live and
/// of the class that the entry point works on. So after a downcast that
/// succeeded, where `tag` is the target and the object's class was found
/// to be related to it, the operations of the target are defined.
pub proof fn lemma_capability_defined(s: State, addr: usize, tag: ClassId, call: CallView)
    requires
        truthful(s, addr, tag),
        call.receiver() == addr,
        call.symbol.spec_creates() is None,
        call.symbol.spec_receiver_class() matches Some(class) && is_a(tag, class),
    ensures
        truthful(s, addr, call.symbol.spec_receiver_class().unwrap()),
        !has_further_conditions(call.symbol) ==> s.admits(call),
{
    lemma_is_a_transitive(s.object(addr).class, tag, call.symbol.spec_receiver_class().unwrap());
}

/// The same for a handle whose tag `T` is related at compile time to the
/// tag `S` of the class on which the entry point of `call` works.
pub proof fn lemma_handle_capability<T: IsA<S>, S: GetGType>(s: State, addr: usize, call: CallView)
    requires
        truthful(s, addr, T::class()),
        call.receiver() == addr,
        call.symbol.spec_creates() is None,
        call.symbol.spec_receiver_class() == Some(S::class()),
    ensures
        truthful(s, addr, S::class()),
        !has_further_conditions(call.symbol) ==> s.admits(call),
{
    T::related();
    lemma_capability_defined(s, addr, T::class(), call);
}

/// A call that neither makes an object, nor counts references, nor
/// connects or severs, nor fills or empties a container, nor initializes
/// the toolkit, leaves the state as it is: so does showing a widget, once
/// or again.
pub proof fn lemma_plain_call_changes_nothing(s: State, call: CallView)
    requires
        call.symbol.spec_creates() is None,
        !has_further_conditions(call.symbol),
        call.symbol != Symbol::GObjectUnref,
        call.symbol != Symbol::GtkInit,
    ensures
        s.step(call) == s,
        s.severed(call) == Seq::<HandlerView>::empty(),
        s.reply(call) == Reply::Nothing,
{
}

/// A handle that tells the truth keeps telling it while the object is
/// live: no call changes the class of an object.
pub proof fn lemma_class_is_kept(s: State, call: CallView, addr: usize)
    requires
        s.admits(call),
        1 <= addr <= s.objects.len(),
    ensures
        1 <= addr <= s.step(call).objects.len(),
        s.step(call).object(addr).class == s.object(addr).class,
{
}

/// An envelope that is made and then released leaves the object with as
/// many owned references as it had: what the envelope took, it gave back.
/// `sink` tells the two ways of making one apart.
pub proof fn lemma_envelope_balanced(object: Object, sink: bool)
    requires
        object.live(),
        object.ref_count < u32::MAX,
    ensures
        ({
            let held = if sink {
                object.after_ref_sink()
            } else {
                object.after_ref()
            };
            &&& held.live()
            &&& held.owned() == object.owned() + 1
            &&& held.after_unref().owned() == object.owned()
            &&& !object.floating ==> held.after_unref() == object
        }),
{
}

/// An object fresh from a constructor that returns a floating reference has
/// one reference once an envelope has taken it over, and is finalized when
/// that envelope is released.
pub proof fn lemma_floating_sink(class: ClassId)
    requires
        is_a(class, ClassId::InitiallyUnowned),
    ensures
        Object::fresh(class).after_ref_sink().ref_count == 1,
        !Object::fresh(class).after_ref_sink().floating,
        !Object::fresh(class).after_ref_sink().after_unref().live(),
{
}

/// While an envelope holds its reference, the object stays live whatever
/// other owners do, as long as each of them gives up no more references
/// than it took: `taken` references added and `given` of them released.
pub proof fn lemma_envelope_keeps_alive(object: Object, taken: nat, given: nat)
    requires
        object.owned() >= 1,
        given <= taken,
        object.ref_count + taken <= u32::MAX,
    ensures
        refs_then_unrefs(object, taken, given).live(),
        refs_then_unrefs(object, taken, given).owned() == object.owned() + taken - given,
        refs_then_unrefs(object, taken, given).floating == object.floating,
    decreases taken + given,
{
    if given > 0 {
        lemma_refs_then_unrefs(object, taken, (given - 1) as nat);
    }
    lemma_refs_then_unrefs(object, taken, given);
}

proof fn lemma_refs_then_unrefs(object: Object, taken: nat, given: nat)
    requires
        object.owned() >= 1,
        given <= taken,
        object.ref_count + taken <= u32::MAX,
    ensures
        refs_then_unrefs(object, taken, given).ref_count == object.ref_count + taken - given,
        refs_then_unrefs(object, taken, given).floating == object.floating,
    decreases taken + given,
{
    if given > 0 {
        lemma_refs_then_unrefs(object, taken, (given - 1) as nat);
    } else if taken > 0 {
        lemma_refs_then_unrefs(object, (taken - 1) as nat, 0);
    }
}

/// The object after `taken` references were added and `given` released.
pub open spec fn refs_then_unrefs(object: Object, taken: nat, given: nat) -> Object
    decreases taken + given,
{
    if given > 0 {
        refs_then_unrefs(object, taken, (given - 1) as nat).after_unref()
    } else if taken > 0 {
        refs_then_unrefs(object, (taken - 1) as nat, 0).after_ref()
    } else {
        object
    }
}

/// Whether connection `h` stands in `list` at exactly one place.
pub open spec fn stands_once(list: Seq<HandlerView>, h: HandlerView) -> bool {
    exists|j: int|
        {
            &&& 0 <= j < list.len()
            &&& #[trigger] list[j] == h
            &&& forall|i: int| 0 <= i < list.len() && (#[trigger] list[i]).id == h.id ==> i == j
        }
}

/// What a filter keeps of a list in connection order holds each connection
/// that it keeps once.
pub proof fn lemma_once_in_order(
    handlers: Seq<HandlerView>,
    k: int,
    pred: spec_fn(HandlerView) -> bool,
)
    requires
        in_connection_order(handlers),
        0 <= k < handlers.len(),
        pred(handlers[k]),
    ensures
        stands_once(handlers.filter(pred), handlers[k]),
{
    let kept = handlers.filter(pred);
    lemma_filter_keeps_order(handlers, pred);
    handlers.lemma_filter_contains(pred, k);
    let j = choose|j: int| 0 <= j < kept.len() && kept[j] == handlers[k];
    assert forall|i: int| 0 <= i < kept.len() && kept[i].id == handlers[k].id implies i == j by {
        if i < j {
            assert(kept[i].id < kept[j].id);
        } else if j < i {
            assert(kept[j].id < kept[i].id);
        }
    }
}

/// A connection that was never severed has its destroy-notify fire exactly
/// once when its owner gives up its last reference, and is gone after that,
/// so that it cannot fire again.
pub proof fn lemma_destroy_notify_once(s: State, k: int)
    requires
        s.wf(),
        0 <= k < s.handlers.len(),
        s.object(s.handlers[k].object).ref_count == 1,
    ensures
        ({
            let h = s.handlers[k];
            let call = crate::glib::traits::unref_call(h.object);
            let fired = s.severed(call);
            &&& s.admits(call)
            &&& !s.step(call).live(h.object)
            &&& stands_once(fired, h)
            &&& forall|i: int|
                0 <= i < s.step(call).handlers.len() ==> s.step(call).handlers[i].id != h.id
        }),
{
    let h = s.handlers[k];
    let call = crate::glib::traits::unref_call(h.object);
    lemma_is_a_rooted(s.object(h.object).class);
    lemma_once_in_order(s.handlers, k, owned_by(h.object));
    let rest = s.step(call).handlers;
    assert(rest == s.handlers.filter(not_owned_by(h.object)));
    lemma_filter_keeps_order(s.handlers, not_owned_by(h.object));
    assert forall|i: int| 0 <= i < rest.len() implies rest[i].id != h.id by {
        assert(s.handlers.contains(rest[i]));
        let m = choose|m: int| 0 <= m < s.handlers.len() && s.handlers[m] == rest[i];
        if m < k {
            assert(s.handlers[m].id < s.handlers[k].id);
        } else if k < m {
            assert(s.handlers[k].id < s.handlers[m].id);
        }
    }
}

/// A connected handler runs exactly once each time its signal is emitted,
/// and the handlers of one emission run in the order in which they were
/// connected.
pub proof fn lemma_emission_once_in_order(s: State, k: int)
    requires
        s.wf(),
        0 <= k < s.handlers.len(),
    ensures
        ({
            let h = s.handlers[k];
            let run = s.emission(h.object, h.signal);
            &&& in_connection_order(run)
            &&& stands_once(run, h)
        }),
{
    let h = s.handlers[k];
    lemma_filter_keeps_order(s.handlers, listens(h.object, h.signal));
    lemma_once_in_order(s.handlers, k, listens(h.object, h.signal));
}

/// A handler connected after another to the same signal of the same object
/// runs after it: the new connection stands last in the emission.
pub proof fn lemma_connect_runs_last(s: State, call: CallView)
    requires
        s.wf(),
        s.admits(call),
        call.symbol == Symbol::GSignalConnectData || call.symbol == Symbol::GlueSignalConnect,
    ensures
        ({
            let object = call.receiver();
            let signal = call.string_at(1);
            let before = s.emission(object, signal);
            let after = s.step(call).emission(object, signal);
            &&& after.len() == before.len() + 1
            &&& after.drop_last() == before
            &&& after.last().user_data == call.pointer_at(3)
            &&& after.last().id == s.connections + 1
        }),
{
    let object = call.receiver();
    let signal = call.string_at(1);
    let h = s.step(call).handlers.last();
    lemma_filter_push(s.handlers, h, listens(object, signal));
    let after = s.step(call).emission(object, signal);
    assert(after.drop_last() =~= s.emission(object, signal));
}

/// Two filters that agree on every element keep the same.
pub proof fn lemma_filter_agree<A>(s: Seq<A>, f: spec_fn(A) -> bool, g: spec_fn(A) -> bool)
    requires
        forall|x: A| #[trigger] f(x) == g(x),
    ensures
        s.filter(f) == s.filter(g),
    decreases s.len(),
{
    reveal(Seq::filter);
    if s.len() > 0 {
        lemma_filter_agree(s.drop_last(), f, g);
    }
}

/// What a call came to: its return value, and the connections that were
/// severed during it, whose boxed descriptors are to be dropped.
#[derive(Debug)]
pub struct Outcome {
    pub reply: Reply,
    pub severed: Vec<Handler>,
}

/// The state of the foreign side on plain values.
#[derive(Debug)]
pub struct Toolkit {
    objects: Vec<Object>,
    handlers: Vec<Handler>,
    connections: u64,
    initialized: bool,
}

impl View for Toolkit {
    type V = State;

    closed spec fn view(&self) -> State {
        State {
            objects: self.objects@,
            handlers: handler_views(self.handlers@),
            connections: self.connections,
            initialized: self.initialized,
        }
    }
}

/// The connections of `object`; with an identifier, that one alone.
pub open spec fn chosen(object: usize, id: Option<u64>) -> spec_fn(HandlerView) -> bool {
    |h: HandlerView|
        h.object == object && match id {
            Some(i) => h.id == i,
            None => true,
        }
}

/// Every connection that [`chosen`] leaves out.
pub open spec fn not_chosen(object: usize, id: Option<u64>) -> spec_fn(HandlerView) -> bool {
    |h: HandlerView|
        !(h.object == object && match id {
            Some(i) => h.id == i,
            None => true,
        })
}

fn copy_handler(h: &Handler) -> (c: Handler)
    ensures
        c@ == h@,
{
    Handler {
        id: h.id,
        object: h.object,
        signal: copy_bytes(h.signal.as_slice()),
        trampoline: h.trampoline,
        user_data: h.user_data,
    }
}

/// Parts the connections into those that stay and those of `object` (or the
/// one connection `id` of it) that go, each part in its old order.
fn part(handlers: &Vec<Handler>, object: usize, id: Option<u64>) -> (r: (
    Vec<Handler>,
    Vec<Handler>,
))
    ensures
        handler_views(r.0@) == handler_views(handlers@).filter(not_chosen(object, id)),
        handler_views(r.1@) == handler_views(handlers@).filter(chosen(object, id)),
{
    let mut stay: Vec<Handler> = Vec::new();
    let mut go: Vec<Handler> = Vec::new();
    let ghost all = handler_views(handlers@);
    let mut i: usize = 0;
    proof {
        reveal(Seq::filter);
        assert(all.take(0) =~= Seq::<HandlerView>::empty());
        assert(handler_views(stay@) =~= all.take(0).filter(not_chosen(object, id)));
        assert(handler_views(go@) =~= all.take(0).filter(chosen(object, id)));
    }
    while i < handlers.len()
        invariant
            i <= handlers.len(),
            all == handler_views(handlers@),
            handler_views(stay@) == all.take(i as int).filter(not_chosen(object, id)),
            handler_views(go@) == all.take(i as int).filter(chosen(object, id)),
        decreases handlers.len() - i,
    {
        let h = &handlers[i];
        let hit = h.object == object && match id {
            Some(wanted) => h.id == wanted,
            None => true,
        };
        proof {
            assert(all.take(i as int).push(all[i as int]) =~= all.take(i + 1));
            lemma_filter_push(all.take(i as int), all[i as int], chosen(object, id));
            lemma_filter_push(all.take(i as int), all[i as int], not_chosen(object, id));
        }
        let ghost stay_before = handler_views(stay@);
        let ghost go_before = handler_views(go@);
        let copy = copy_handler(h);
        if hit {
            go.push(copy);
            assert(handler_views(go@) =~= go_before.push(all[i as int]));
        } else {
            stay.push(copy);
            assert(handler_views(stay@) =~= stay_before.push(all[i as int]));
        }
        i += 1;
    }
    assert(all.take(handlers.len() as int) =~= all);
    (stay, go)
}

impl Toolkit {
    /// A toolkit that has not been initialized and has no object.
    pub fn new() -> (t: Self)
        ensures
            t@.wf(),
            t@.objects.len() == 0,
            t@.handlers.len() == 0,
            t@.connections == 0,
            !t@.initialized,
    {
        let t = Toolkit {
            objects: Vec::new(),
            handlers: Vec::new(),
            connections: 0,
            initialized: false,
        };
        assert(t@.handlers =~= Seq::empty());
        t
    }

    /// What is kept of the object at `addr`; `None` where no object was ever
    /// made at that address.
    pub fn object(&self, addr: usize) -> (o: Option<Object>)
        ensures
            o is Some <==> 1 <= addr <= self@.objects.len(),
            o matches Some(x) ==> x == self@.object(addr),
    {
        if 1 <= addr && addr <= self.objects.len() {
            Some(self.objects[addr - 1])
        } else {
            None
        }
    }

    /// Whether a live object stands at `addr`.
    pub fn is_live(&self, addr: usize) -> (b: bool)
        ensures
            b == self@.live(addr),
    {
        match self.object(addr) {
            Some(o) => o.ref_count > 0,
            None => false,
        }
    }

    /// Whether the toolkit has been initialized.
    pub fn is_initialized(&self) -> (b: bool)
        ensures
            b == self@.initialized,
    {
        self.initialized
    }

    /// The number of connections that have not been severed.
    pub fn handler_count(&self) -> (n: usize)
        ensures
            n == self@.handlers.len(),
    {
        self.handlers.len()
    }

    /// Whether `call` is defined on the present state.
    pub fn admits(&self, call: &Call) -> (b: bool)
        ensures
            b == self@.admits(call@),
    {
        let recv = call.receiver();
        let child = call.pointer_at(1);
        if call.symbol.creates().is_some() {
            return self.initialized && self.objects.len() < usize::MAX;
        }
        if call.symbol == Symbol::GtkInit {
            return !self.initialized;
        }
        let class = match call.symbol.receiver_class() {
            Some(c) => c,
            None => {
                return true;
            },
        };
        let target = match self.object(recv) {
            Some(o) => o,
            None => {
                return false;
            },
        };
        if target.ref_count == 0 || !type_is_a(target.class, class) {
            return false;
        }
        match call.symbol {
            Symbol::GObjectRefSink => target.floating || target.ref_count < u32::MAX,
            Symbol::GObjectRef => target.ref_count < u32::MAX,
            Symbol::GSignalConnectData | Symbol::GlueSignalConnect => {
                self.connections < u64::MAX && call.args.len() >= 4 && matches!(
                    call.args[1],
                    Arg::Str(_)
                ) && matches!(call.args[2], Arg::UInt(_)) && matches!(call.args[3], Arg::Pointer(_))
            },
            Symbol::GSignalHandlerDisconnect => {
                call.args.len() == 2 && matches!(call.args[1], Arg::ULong(_))
            },
            Symbol::GtkContainerAdd => {
                match self.object(child) {
                    Some(c) => c.ref_count > 0 && child != recv && type_is_a(
                        c.class,
                        ClassId::Widget,
                    ) && c.parent == 0 && (c.floating || c.ref_count < u32::MAX),
                    None => false,
                }
            },
            Symbol::GtkContainerRemove => {
                match self.object(child) {
                    Some(c) => c.ref_count > 0 && child != recv && c.parent == recv,
                    None => false,
                }
            },
            _ => true,
        }
    }

    /// Gives up one reference to the object at `addr`, and severs its
    /// connections if that was the last.
    fn unref(&mut self, addr: usize) -> (severed: Vec<Handler>)
        requires
            old(self)@.wf(),
            old(self)@.live(addr),
        ensures
            final(self)@ == old(self)@.unref(addr),
            final(self)@.wf(),
            handler_views(severed@) == old(self)@.severed_by_unref(addr),
    {
        proof {
            lemma_filter_agree(old(self)@.handlers, not_chosen(addr, None), not_owned_by(addr));
            lemma_filter_agree(old(self)@.handlers, chosen(addr, None), owned_by(addr));
            lemma_unref_keeps_wf(old(self)@, addr);
        }
        let before = self.objects[addr - 1];
        let after = Object {
            class: before.class,
            ref_count: before.ref_count - 1,
            floating: before.floating && before.ref_count > 1,
            parent: before.parent,
        };
        if after.ref_count > 0 {
            self.objects.set(addr - 1, after);
            let none: Vec<Handler> = Vec::new();
            assert(handler_views(none@) =~= Seq::empty());
            none
        } else {
            let (stay, go) = part(&self.handlers, addr, None);
            self.objects.set(addr - 1, after);
            self.handlers = stay;
            go
        }
    }

    /// Carries out `call` and says what it came to.
    pub fn perform(&mut self, call: &Call) -> (out: Outcome)
        requires
            old(self)@.wf(),
            old(self)@.admits(call@),
        ensures
            final(self)@ == old(self)@.step(call@),
            final(self)@.wf(),
            out.reply == old(self)@.reply(call@),
            handler_views(out.severed@) == old(self)@.severed(call@),
    {
        proof {
            lemma_step_keeps_wf(old(self)@, call@);
        }
        let recv = call.receiver();
        let child = call.pointer_at(1);
        let mut severed: Vec<Handler> = Vec::new();
        assert(handler_views(severed@) =~= Seq::empty());
        let mut reply = Reply::Nothing;
        if let Some(class) = call.symbol.creates() {
            self.objects.push(
                Object {
                    class,
                    ref_count: 1,
                    floating: type_is_a(class, ClassId::InitiallyUnowned),
                    parent: 0,
                },
            );
            reply = Reply::Pointer(self.objects.len());
        } else {
            match call.symbol {
                Symbol::GObjectRefSink => {
                    let o = self.objects[recv - 1];
                    let after = if o.floating {
                        Object {
                            class: o.class,
                            ref_count: o.ref_count,
                            floating: false,
                            parent: o.parent,
                        }
                    } else {
                        Object {
                            class: o.class,
                            ref_count: o.ref_count + 1,
                            floating: o.floating,
                            parent: o.parent,
                        }
                    };
                    self.objects.set(recv - 1, after);
                },
                Symbol::GObjectRef => {
                    let o = self.objects[recv - 1];
                    self.objects.set(
                        recv - 1,
                        Object {
                            class: o.class,
                            ref_count: o.ref_count + 1,
                            floating: o.floating,
                            parent: o.parent,
                        },
                    );
                },
                Symbol::GObjectUnref => {
                    severed = self.unref(recv);
                },
                Symbol::GSignalConnectData | Symbol::GlueSignalConnect => {
                    let id = self.connections + 1;
                    let ghost before = handler_views(self.handlers@);
                    let h = Handler {
                        id,
                        object: recv,
                        signal: call.string_at(1),
                        trampoline: call.uint_at(2),
                        user_data: call.pointer_at(3),
                    };
                    self.handlers.push(h);
                    self.connections = id;
                    assert(handler_views(self.handlers@) =~= before.push(h@));
                    reply = Reply::ULong(id);
                },
                Symbol::GSignalHandlerDisconnect => {
                    let id = call.ulong_at(1);
                    proof {
                        lemma_filter_agree(
                            old(self)@.handlers,
                            not_chosen(recv, Some(id)),
                            not_connection(recv, id),
                        );
                        lemma_filter_agree(
                            old(self)@.handlers,
                            chosen(recv, Some(id)),
                            is_connection(recv, id),
                        );
                    }
                    let (stay, go) = part(&self.handlers, recv, Some(id));
                    self.handlers = stay;
                    severed = go;
                },
                Symbol::GtkContainerAdd => {
                    let o = self.objects[child - 1];
                    let after = if o.floating {
                        Object {
                            class: o.class,
                            ref_count: o.ref_count,
                            floating: false,
                            parent: recv,
                        }
                    } else {
                        Object {
                            class: o.class,
                            ref_count: o.ref_count + 1,
                            floating: o.floating,
                            parent: recv,
                        }
                    };
                    self.objects.set(child - 1, after);
                },
                Symbol::GtkContainerRemove => {
                    let o = self.objects[child - 1];
                    proof {
                        lemma_unparent_keeps_wf(old(self)@, child);
                    }
                    self.objects.set(
                        child - 1,
                        Object {
                            class: o.class,
                            ref_count: o.ref_count,
                            floating: o.floating,
                            parent: 0,
                        },
                    );
                    severed = self.unref(child);
                },
                Symbol::GtkInit => {
                    self.initialized = true;
                },
                _ => {},
            }
        }
        Outcome { reply, severed }
    }

    /// Carries out `call` where it is defined, and leaves the state as it is
    /// where it is not.
    pub fn try_perform(&mut self, call: &Call) -> (out: Option<Outcome>)
        requires
            old(self)@.wf(),
        ensures
            final(self)@.wf(),
            out is Some <==> old(self)@.admits(call@),
            out is None ==> final(self)@ == old(self)@,
            out matches Some(o) ==> {
                &&& final(self)@ == old(self)@.step(call@)
                &&& o.reply == old(self)@.reply(call@)
                &&& handler_views(o.severed@) == old(self)@.severed(call@)
            },
    {
        if self.admits(call) {
            Some(self.perform(call))
        } else {
            None
        }
    }

    /// The handlers that run when the object at `object` emits `signal`, in
    /// the order in which they run. `signal` is the name in wire form.
    pub fn emission(&self, object: usize, signal: &[u8]) -> (run: Vec<Handler>)
        ensures
            handler_views(run@) == self@.emission(object, signal@),
    {
        let mut run: Vec<Handler> = Vec::new();
        let ghost all = handler_views(self.handlers@);
        let ghost pred = listens(object, signal@);
        let mut i: usize = 0;
        proof {
            reveal(Seq::filter);
            assert(all.take(0) =~= Seq::<HandlerView>::empty());
            assert(handler_views(run@) =~= all.take(0).filter(pred));
        }
        while i < self.handlers.len()
            invariant
                i <= self.handlers.len(),
                all == handler_views(self.handlers@),
                pred == listens(object, signal@),
                handler_views(run@) == all.take(i as int).filter(pred),
            decreases self.handlers.len() - i,
        {
            let h = &self.handlers[i];
            proof {
                assert(all.take(i as int).push(all[i as int]) =~= all.take(i + 1));
                lemma_filter_push(all.take(i as int), all[i as int], pred);
            }
            if h.object == object && bytes_eq(h.signal.as_slice(), signal) {
                let ghost before = handler_views(run@);
                run.push(copy_handler(h));
                assert(handler_views(run@) =~= before.push(all[i as int]));
            }
            i += 1;
        }
        assert(all.take(self.handlers.len() as int) =~= all);
        run
    }
}

/// Giving up a reference keeps the state well formed.
proof fn lemma_unref_keeps_wf(s: State, addr: usize)
    requires
        s.wf(),
        s.live(addr),
    ensures
        s.unref(addr).wf(),
{
    let t = s.unref(addr);
    lemma_filter_keeps_order(s.handlers, not_owned_by(addr));
    assert forall|i: int| 0 <= i < t.handlers.len() implies {
        &&& 1 <= (#[trigger] t.handlers[i]).id <= t.connections
        &&& t.live(t.handlers[i].object)
    } by {
        let h = t.handlers[i];
        assert(s.handlers.contains(h));
        let k = choose|k: int| 0 <= k < s.handlers.len() && s.handlers[k] == h;
        assert(s.live(s.handlers[k].object));
    }
}

/// Taking an object out of its container keeps the state well formed.
proof fn lemma_unparent_keeps_wf(s: State, addr: usize)
    requires
        s.wf(),
        s.live(addr),
    ensures
        s.with_object(addr, Object { parent: 0, ..s.object(addr) }).wf(),
{
    let t = s.with_object(addr, Object { parent: 0, ..s.object(addr) });
    assert forall|i: int| 0 <= i < t.handlers.len() implies {
        &&& 1 <= (#[trigger] t.handlers[i]).id <= t.connections
        &&& t.live(t.handlers[i].object)
    } by {
        assert(s.live(s.handlers[i].object));
    }
}

} // verus!
