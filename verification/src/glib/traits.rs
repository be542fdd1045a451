//! Typed addresses, the casts between them, and the envelope: the value
//! that owns exactly one strong reference to a foreign object.
//!
//! Access is shared: every operation takes `&self`, since the foreign
//! objects carry their own reference counts. An address is a plain integer
//! with a type tag; zero is the null pointer.

use crate::ffi::{arg_views, Arg, ArgView, Call, CallView, Symbol};
use crate::glib::types::{is_a, type_is_a, ClassId};
use core::marker::PhantomData;
use vstd::prelude::*;
use vstd::std_specs::cmp::PartialEqSpecImpl;

verus! {

/// A type tag that names a class of the object system.
pub trait GetGType {
    /// The class that the tag stands for.
    spec fn class() -> ClassId;

    fn get_gtype() -> (c: ClassId)
        ensures
            c == Self::class(),
    ;
}

/// The compile-time class relation: every object of the class of `Self` is
/// also an object of the class of `Super`. Each implementation shows that
/// the class lattice has the path that it claims.
pub trait IsA<Super: GetGType>: GetGType {
    proof fn related()
        ensures
            is_a(Self::class(), Super::class()),
    ;
}

impl<T: GetGType> IsA<T> for T {
    proof fn related() {
    }
}

/// The tag of the root class.
#[derive(Debug)]
pub struct C_GObject;

impl GetGType for C_GObject {
    open spec fn class() -> ClassId {
        ClassId::Object
    }

    fn get_gtype() -> ClassId {
        ClassId::Object
    }
}

/// The address of a foreign object that may be changed through it, tagged
/// with the class it is viewed as. It owns nothing.
#[derive(Debug)]
pub struct Ptr<T> {
    pub addr: usize,
    pub tag: PhantomData<T>,
}

/// The address of a foreign object that is only read through it.
#[derive(Debug)]
pub struct ConstPtr<T> {
    pub addr: usize,
    pub tag: PhantomData<T>,
}

impl<T> Clone for Ptr<T> {
    fn clone(&self) -> (r: Self)
        ensures
            r == *self,
    {
        Ptr { addr: self.addr, tag: PhantomData }
    }
}

impl<T> Copy for Ptr<T> {

}

impl<T> Clone for ConstPtr<T> {
    fn clone(&self) -> (r: Self)
        ensures
            r == *self,
    {
        ConstPtr { addr: self.addr, tag: PhantomData }
    }
}

impl<T> Copy for ConstPtr<T> {

}

impl<T> Ptr<T> {
    pub fn new(addr: usize) -> (p: Self)
        ensures
            p.addr == addr,
    {
        Ptr { addr, tag: PhantomData }
    }

    pub fn null() -> (p: Self)
        ensures
            p.addr == 0,
    {
        Ptr { addr: 0, tag: PhantomData }
    }

    pub fn is_null(&self) -> (b: bool)
        ensures
            b == (self.addr == 0),
    {
        self.addr == 0
    }

    /// The same address, for reading only.
    pub fn as_const(&self) -> (p: ConstPtr<T>)
        ensures
            p.addr == self.addr,
    {
        ConstPtr { addr: self.addr, tag: PhantomData }
    }
}

impl<T> ConstPtr<T> {
    pub fn new(addr: usize) -> (p: Self)
        ensures
            p.addr == addr,
    {
        ConstPtr { addr, tag: PhantomData }
    }

    pub fn is_null(&self) -> (b: bool)
        ensures
            b == (self.addr == 0),
    {
        self.addr == 0
    }

    /// The same address, for changing the object.
    pub fn as_mut(&self) -> (p: Ptr<T>)
        ensures
            p.addr == self.addr,
    {
        Ptr { addr: self.addr, tag: PhantomData }
    }
}

/// The static upcast: viewing an address as that of an ancestor class. It
/// cannot fail and leaves the address as it is.
pub trait MutCast<T> {
    /// The address that is cast.
    spec fn address(&self) -> usize;

    fn cast(&self) -> (p: Ptr<T>)
        ensures
            p.addr == self.address(),
    ;
}

/// The static upcast of an address that is only read through.
pub trait Cast<T> {
    spec fn address(&self) -> usize;

    fn cast(&self) -> (p: ConstPtr<T>)
        ensures
            p.addr == self.address(),
    ;
}

impl<T: GetGType, S: IsA<T>> MutCast<T> for Ptr<S> {
    open spec fn address(&self) -> usize {
        self.addr
    }

    fn cast(&self) -> (p: Ptr<T>) {
        Ptr { addr: self.addr, tag: PhantomData }
    }
}

impl<T: GetGType, S: IsA<T>> Cast<T> for ConstPtr<S> {
    open spec fn address(&self) -> usize {
        self.addr
    }

    fn cast(&self) -> (p: ConstPtr<T>) {
        let p: Ptr<T> = self.as_mut().cast();
        p.as_const()
    }
}

/// The runtime downcast: viewing an address as that of a subclass, which
/// holds only where the object's own class says so. `runtime` is the class
/// that the foreign side reports for the object.
pub trait MutDowncast<T> {
    spec fn address(&self) -> usize;

    /// The class that the cast narrows to.
    spec fn target() -> ClassId;

    /// The narrowed address exactly when the address is not null and the
    /// object's class is the target or a subclass of it.
    fn try_downcast(&self, runtime: ClassId) -> (r: Option<Ptr<T>>)
        ensures
            r is Some <==> self.address() != 0 && is_a(runtime, Self::target()),
            r matches Some(p) ==> p.addr == self.address(),
    ;

    /// The narrowed address without any test: whoever calls this holds that
    /// the object belongs to the target class.
    fn force_downcast(&self) -> (p: Ptr<T>)
        ensures
            p.addr == self.address(),
    ;

    /// The narrowed address of an object known to belong to the target.
    fn downcast(&self, runtime: ClassId) -> (p: Ptr<T>)
        requires
            self.address() != 0,
            is_a(runtime, Self::target()),
        ensures
            p.addr == self.address(),
    ;
}

/// The runtime downcast of an address that is only read through.
pub trait Downcast<T> {
    spec fn address(&self) -> usize;

    spec fn target() -> ClassId;

    fn try_downcast(&self, runtime: ClassId) -> (r: Option<ConstPtr<T>>)
        ensures
            r is Some <==> self.address() != 0 && is_a(runtime, Self::target()),
            r matches Some(p) ==> p.addr == self.address(),
    ;

    fn force_downcast(&self) -> (p: ConstPtr<T>)
        ensures
            p.addr == self.address(),
    ;

    fn downcast(&self, runtime: ClassId) -> (p: ConstPtr<T>)
        requires
            self.address() != 0,
            is_a(runtime, Self::target()),
        ensures
            p.addr == self.address(),
    ;
}

impl<S, T: GetGType> MutDowncast<T> for Ptr<S> {
    open spec fn address(&self) -> usize {
        self.addr
    }

    open spec fn target() -> ClassId {
        T::class()
    }

    fn try_downcast(&self, runtime: ClassId) -> (r: Option<Ptr<T>>) {
        if self.addr != 0 && type_is_a(runtime, T::get_gtype()) {
            Some(Ptr { addr: self.addr, tag: PhantomData })
        } else {
            None
        }
    }

    fn force_downcast(&self) -> (p: Ptr<T>) {
        Ptr { addr: self.addr, tag: PhantomData }
    }

    fn downcast(&self, runtime: ClassId) -> (p: Ptr<T>) {
        Ptr { addr: self.addr, tag: PhantomData }
    }
}

impl<S, T: GetGType> Downcast<T> for ConstPtr<S> {
    open spec fn address(&self) -> usize {
        self.addr
    }

    open spec fn target() -> ClassId {
        T::class()
    }

    fn try_downcast(&self, runtime: ClassId) -> (r: Option<ConstPtr<T>>) {
        let narrowed: Option<Ptr<T>> = self.as_mut().try_downcast(runtime);
        if let Some(ptr) = narrowed {
            Some(ptr.as_const())
        } else {
            None
        }
    }

    fn force_downcast(&self) -> (p: ConstPtr<T>) {
        let ptr: Ptr<T> = self.as_mut().force_downcast();
        ptr.as_const()
    }

    fn downcast(&self, runtime: ClassId) -> (p: ConstPtr<T>) {
        let ptr: Ptr<T> = self.as_mut().downcast(runtime);
        ptr.as_const()
    }
}

/// The call that takes a reference to the object at `addr`: it sinks a
/// floating reference, or adds one where there is none to sink.
pub open spec fn ref_sink_call(addr: usize) -> CallView {
    CallView { symbol: Symbol::GObjectRefSink, args: seq![ArgView::Pointer(addr)] }
}

/// The call that adds a reference to the object at `addr`.
pub open spec fn ref_call(addr: usize) -> CallView {
    CallView { symbol: Symbol::GObjectRef, args: seq![ArgView::Pointer(addr)] }
}

/// The call that gives up one reference to the object at `addr`.
pub open spec fn unref_call(addr: usize) -> CallView {
    CallView { symbol: Symbol::GObjectUnref, args: seq![ArgView::Pointer(addr)] }
}

/// A handle on a live foreign object: it is never null.
pub trait AsPtr {
    /// The tag of the narrowest class that the object is known to have.
    type Inner: GetGType;

    /// The address of the object.
    spec fn addr(&self) -> usize;

    fn as_mut_ptr(&mut self) -> (p: Ptr<Self::Inner>)
        ensures
            p.addr == old(self).addr(),
            p.addr != 0,
            final(self).addr() == old(self).addr(),
    ;

    fn as_ptr(&self) -> (p: ConstPtr<Self::Inner>)
        ensures
            p.addr == self.addr(),
            p.addr != 0,
    ;
}

/// Making an owning handle from an address that a foreign call returned.
/// Either way the handle owns one strong reference once the call that comes
/// with it has been carried out.
pub trait FromPtr: AsPtr + Sized {
    /// Takes over an object fresh from its constructor: the call sinks the
    /// floating reference, or adds a reference where the object has none
    /// floating.
    fn from_floating_ptr(ptr: Ptr<Self::Inner>) -> (r: (Self, Call))
        requires
            ptr.addr != 0,
        ensures
            r.0.addr() == ptr.addr,
            r.1@ == ref_sink_call(ptr.addr),
    ;

    /// Shares an object that someone else owns: the call adds a reference
    /// whether or not one is floating.
    fn from_ptr(ptr: Ptr<Self::Inner>) -> (r: (Self, Call))
        requires
            ptr.addr != 0,
        ensures
            r.0.addr() == ptr.addr,
            r.1@ == ref_call(ptr.addr),
    ;
}

/// Reference counting on a handle.
pub trait ObjectTrait: AsPtr {
    /// The call that takes one more reference, sinking a floating one.
    fn ref_(&mut self) -> (call: Call)
        ensures
            call@ == ref_sink_call(old(self).addr()),
            final(self).addr() == old(self).addr(),
    ;

    /// The call that gives one reference up.
    fn unref(&mut self) -> (call: Call)
        ensures
            call@ == unref_call(old(self).addr()),
            final(self).addr() == old(self).addr(),
    ;
}

impl<T: AsPtr> ObjectTrait for T {
    fn ref_(&mut self) -> (call: Call) {
        let object: Ptr<C_GObject> = ptr_to_object(self.as_mut_ptr());
        Call::unary(Symbol::GObjectRefSink, Arg::Pointer(object.addr))
    }

    fn unref(&mut self) -> (call: Call) {
        let object: Ptr<C_GObject> = ptr_to_object(self.as_mut_ptr());
        Call::unary(Symbol::GObjectUnref, Arg::Pointer(object.addr))
    }
}

/// Every address of the object system is the address of an object: the
/// root is above every class.
pub fn ptr_to_object<T: GetGType>(ptr: Ptr<T>) -> (p: Ptr<C_GObject>)
    ensures
        p.addr == ptr.addr,
        is_a(T::class(), C_GObject::class()),
{
    proof {
        crate::glib::types::lemma_is_a_rooted(T::class());
    }
    Ptr { addr: ptr.addr, tag: PhantomData }
}

/// The owner of one strong reference to a foreign object, viewed as an
/// object of class `T`. It is made by [`FromPtr`], and ends in
/// [`Envelope::release`], which gives the reference up, or in
/// [`Envelope::leak`], which hands it on. An envelope that ends in neither
/// keeps its reference for good.
#[must_use]
#[derive(Debug)]
pub struct Envelope<T> {
    ptr: usize,
    tag: PhantomData<T>,
}

/// A view of a foreign object that owns no reference: it lasts no longer
/// than the borrow it was made from.
#[derive(Debug)]
pub struct Borrowed<'a, T> {
    ptr: usize,
    tag: PhantomData<&'a T>,
}

impl<T: GetGType> AsPtr for Envelope<T> {
    type Inner = T;

    closed spec fn addr(&self) -> usize {
        self.ptr
    }

    fn as_mut_ptr(&mut self) -> (p: Ptr<T>) {
        proof {
            use_type_invariant(&*self);
        }
        Ptr { addr: self.ptr, tag: PhantomData }
    }

    fn as_ptr(&self) -> (p: ConstPtr<T>) {
        proof {
            use_type_invariant(self);
        }
        ConstPtr { addr: self.ptr, tag: PhantomData }
    }
}

impl<T: GetGType> FromPtr for Envelope<T> {
    fn from_floating_ptr(ptr: Ptr<T>) -> (r: (Self, Call)) {
        let object = ptr_to_object(ptr);
        (
            Envelope { ptr: ptr.addr, tag: PhantomData },
            Call::unary(Symbol::GObjectRefSink, Arg::Pointer(object.addr)),
        )
    }

    fn from_ptr(ptr: Ptr<T>) -> (r: (Self, Call)) {
        let object = ptr_to_object(ptr);
        (
            Envelope { ptr: ptr.addr, tag: PhantomData },
            Call::unary(Symbol::GObjectRef, Arg::Pointer(object.addr)),
        )
    }
}

impl<T> Envelope<T> {
    #[verifier::type_invariant]
    spec fn not_null(&self) -> bool {
        self.ptr != 0
    }
}

impl<T: GetGType> Envelope<T> {
    /// Ends the envelope without giving its reference up: the reference goes
    /// with the address to whoever takes it.
    pub fn leak(self) -> (p: Ptr<T>)
        ensures
            p.addr == self.addr(),
            p.addr != 0,
    {
        proof {
            use_type_invariant(&self);
        }
        Ptr { addr: self.ptr, tag: PhantomData }
    }

    /// Ends the envelope: the call gives up the one reference that it owned.
    /// An envelope is consumed here, so its reference is given up once.
    pub fn release(self) -> (call: Call)
        ensures
            call@ == unref_call(self.addr()),
    {
        Call::unary(Symbol::GObjectUnref, Arg::Pointer(self.ptr))
    }

    /// A view of the same object that owns nothing.
    pub fn borrow<'a>(&'a self) -> (b: Borrowed<'a, T>)
        ensures
            b.addr() == self.addr(),
    {
        proof {
            use_type_invariant(self);
        }
        Borrowed { ptr: self.ptr, tag: PhantomData }
    }

    /// The same envelope, viewed as an ancestor class. This cannot fail.
    pub fn upcast<S: GetGType>(self) -> (e: Envelope<S>)
        where T: IsA<S>
        ensures
            e.addr() == self.addr(),
    {
        proof {
            use_type_invariant(&self);
        }
        Envelope { ptr: self.ptr, tag: PhantomData }
    }

    /// The same envelope, viewed as class `Target`, exactly when the
    /// object's own class `runtime` is `Target` or a subclass of it; else
    /// the envelope comes back as it was.
    pub fn try_downcast<Target: GetGType>(self, runtime: ClassId) -> (r: Result<
        Envelope<Target>,
        Envelope<T>,
    >)
        ensures
            r is Ok <==> is_a(runtime, Target::class()),
            r matches Ok(e) ==> e.addr() == self.addr(),
            r matches Err(e) ==> e == self,
    {
        proof {
            use_type_invariant(&self);
        }
        if type_is_a(runtime, Target::get_gtype()) {
            Ok(Envelope { ptr: self.ptr, tag: PhantomData })
        } else {
            Err(self)
        }
    }

    /// A view of the object as class `Target`, exactly when the object's own
    /// class `runtime` is `Target` or a subclass of it. The envelope keeps
    /// its reference; no count changes.
    pub fn try_as<'a, Target: GetGType>(&'a self, runtime: ClassId) -> (r: Option<
        Borrowed<'a, Target>,
    >)
        ensures
            r is Some <==> is_a(runtime, Target::class()),
            r matches Some(b) ==> b.addr() == self.addr(),
    {
        proof {
            use_type_invariant(self);
        }
        if type_is_a(runtime, Target::get_gtype()) {
            Some(Borrowed { ptr: self.ptr, tag: PhantomData })
        } else {
            None
        }
    }
}

impl<T: GetGType> PartialEq for Envelope<T> {
    /// Two envelopes are equal when they hold the same address.
    fn eq(&self, other: &Self) -> (r: bool) {
        self.ptr == other.ptr
    }
}

impl<T: GetGType> PartialEqSpecImpl for Envelope<T> {
    open spec fn obeys_eq_spec() -> bool {
        true
    }

    open spec fn eq_spec(&self, other: &Self) -> bool {
        self.addr() == other.addr()
    }
}

impl<'a, T> Borrowed<'a, T> {
    #[verifier::type_invariant]
    spec fn not_null(&self) -> bool {
        self.ptr != 0
    }
}

impl<'a, T: GetGType> Borrowed<'a, T> {
    /// A view of the object at an address that the foreign side handed to a
    /// callback. No reference is taken, and none is given up when the view
    /// goes away.
    pub fn from_raw(ptr: Ptr<T>) -> (b: Self)
        requires
            ptr.addr != 0,
        ensures
            b.addr() == ptr.addr,
    {
        Borrowed { ptr: ptr.addr, tag: PhantomData }
    }

    /// The view as an ancestor class.
    pub fn upcast<S: GetGType>(self) -> (b: Borrowed<'a, S>)
        where T: IsA<S>
        ensures
            b.addr() == self.addr(),
    {
        proof {
            use_type_invariant(&self);
        }
        Borrowed { ptr: self.ptr, tag: PhantomData }
    }

    /// The view as class `Target`, exactly when the object's own class
    /// `runtime` is `Target` or a subclass of it.
    pub fn try_as<Target: GetGType>(&self, runtime: ClassId) -> (r: Option<Borrowed<'a, Target>>)
        ensures
            r is Some <==> is_a(runtime, Target::class()),
            r matches Some(b) ==> b.addr() == self.addr(),
    {
        proof {
            use_type_invariant(self);
        }
        if type_is_a(runtime, Target::get_gtype()) {
            Some(Borrowed { ptr: self.ptr, tag: PhantomData })
        } else {
            None
        }
    }
}

impl<'a, T: GetGType> AsPtr for Borrowed<'a, T> {
    type Inner = T;

    closed spec fn addr(&self) -> usize {
        self.ptr
    }

    fn as_mut_ptr(&mut self) -> (p: Ptr<T>) {
        proof {
            use_type_invariant(&*self);
        }
        Ptr { addr: self.ptr, tag: PhantomData }
    }

    fn as_ptr(&self) -> (p: ConstPtr<T>) {
        proof {
            use_type_invariant(self);
        }
        ConstPtr { addr: self.ptr, tag: PhantomData }
    }
}

/// A handle that can be made from, and read as, the address of an object.
pub trait FFIGObject: Sized {
    spec fn object_addr(&self) -> usize;

    fn get_gobject(&self) -> (p: Ptr<C_GObject>)
        ensures
            p.addr == self.object_addr(),
    ;

    /// A view of the object at `object`; no reference is taken.
    fn wrap_object(object: Ptr<C_GObject>) -> (r: Self)
        requires
            object.addr != 0,
        ensures
            r.object_addr() == object.addr,
    ;
}

impl<'a> FFIGObject for Borrowed<'a, C_GObject> {
    open spec fn object_addr(&self) -> usize {
        self.addr()
    }

    fn get_gobject(&self) -> (p: Ptr<C_GObject>) {
        self.as_ptr().as_mut()
    }

    fn wrap_object(object: Ptr<C_GObject>) -> (r: Self) {
        Borrowed::from_raw(object)
    }
}

/// Wrapping an address and leaking the envelope at once gives the address
/// back.
pub fn wrap_and_leak<T: GetGType>(ptr: Ptr<T>) -> (p: Ptr<T>)
    requires
        ptr.addr != 0,
    ensures
        p == ptr,
{
    let (envelope, _call) = Envelope::<T>::from_floating_ptr(ptr);
    envelope.leak()
}

/// Casting up along an edge and down again along the same edge gives the
/// envelope back: the downcast succeeds, on the same address.
pub fn upcast_then_downcast<Sub: IsA<Super>, Super: GetGType>(
    envelope: Envelope<Sub>,
    runtime: ClassId,
) -> (r: Envelope<Sub>)
    requires
        is_a(runtime, Sub::class()),
    ensures
        r == envelope,
{
    let up: Envelope<Super> = envelope.upcast();
    match up.try_downcast::<Sub>(runtime) {
        Ok(down) => down,
        Err(_) => {
            proof {
                assert(false);
            }
            vstd::pervasive::unreached()
        },
    }
}

/// The views of a list of calls, in order.
pub open spec fn call_views(calls: Seq<Call>) -> Seq<CallView> {
    Seq::new(calls.len(), |i: int| calls[i]@)
}

/// The call `pending` with the address `created` as its first argument.
pub open spec fn bound_to(pending: CallView, created: usize) -> CallView {
    CallView { symbol: pending.symbol, args: pending.args.update(0, ArgView::Pointer(created)) }
}

/// The calls `pending`, each with `created` as its first argument.
pub open spec fn all_bound_to(pending: Seq<CallView>, created: usize) -> Seq<CallView> {
    Seq::new(pending.len(), |i: int| bound_to(pending[i], created))
}

/// Whether each of the calls has a first argument.
pub open spec fn have_receivers(calls: Seq<CallView>) -> bool {
    forall|i: int| 0 <= i < calls.len() ==> (#[trigger] calls[i]).args.len() > 0
}

/// How an object of class `T` is made: the call of its constructor, and the
/// calls on the new object that finish it. Those calls are written before
/// the object exists, so each has a null pointer where the object goes.
#[must_use]
#[derive(Debug)]
pub struct Recipe<T> {
    create: Call,
    setup: Vec<Call>,
    tag: PhantomData<T>,
}

impl<T> Recipe<T> {
    #[verifier::type_invariant]
    spec fn setup_has_receivers(&self) -> bool {
        forall|i: int| 0 <= i < self.setup@.len() ==> (#[trigger] self.setup@[i])@.args.len() > 0
    }
}

impl<T: GetGType> Recipe<T> {
    /// The call of the constructor.
    pub closed spec fn creation(&self) -> CallView {
        self.create@
    }

    /// The calls that follow on the new object, each with a null pointer
    /// where the object goes.
    pub closed spec fn pending(&self) -> Seq<CallView> {
        call_views(self.setup@)
    }

    /// A recipe with nothing to do after the constructor.
    pub fn plain(create: Call) -> (r: Self)
        ensures
            r.creation() == create@,
            r.pending() == Seq::<CallView>::empty(),
    {
        let r = Recipe { create, setup: Vec::new(), tag: PhantomData };
        assert(r.pending() =~= Seq::<CallView>::empty());
        r
    }

    /// The recipe with one more call on the new object at its end.
    pub fn followed_by(self, call: Call) -> (r: Self)
        requires
            call@.args.len() > 0,
        ensures
            r.creation() == self.creation(),
            r.pending() == self.pending().push(call@),
    {
        proof {
            use_type_invariant(&self);
        }
        let Recipe { create, setup, tag: _ } = self;
        let mut setup = setup;
        let ghost before = call_views(setup@);
        setup.push(call);
        assert(call_views(setup@) =~= before.push(call@));
        Recipe { create, setup, tag: PhantomData }
    }

    /// The recipe with `calls` on the new object at its end, in order.
    pub fn followed_by_all(self, calls: Vec<Call>) -> (r: Self)
        requires
            have_receivers(call_views(calls@)),
        ensures
            r.creation() == self.creation(),
            r.pending() == self.pending() + call_views(calls@),
    {
        proof {
            use_type_invariant(&self);
            assert forall|i: int| 0 <= i < calls@.len() implies (#[trigger] calls@[i])@.args.len()
                > 0 by {
                assert(call_views(calls@)[i].args.len() > 0);
            }
        }
        let Recipe { create, setup, tag: _ } = self;
        let mut setup = setup;
        let mut calls = calls;
        let ghost before = call_views(setup@);
        let ghost added = call_views(calls@);
        setup.append(&mut calls);
        assert(call_views(setup@) =~= before + added);
        Recipe { create, setup, tag: PhantomData }
    }

    /// The call of the constructor.
    pub fn create(&self) -> (call: &Call)
        ensures
            call@ == self.creation(),
    {
        &self.create
    }

    /// The calls that follow on the new object.
    pub fn setup(&self) -> (calls: &Vec<Call>)
        ensures
            call_views(calls@) == self.pending(),
    {
        &self.setup
    }

    /// Takes over the object that the constructor returned at `created`.
    /// A null pointer means that the constructor failed: nothing is made.
    /// Else the envelope owns the object once the calls have been carried
    /// out in order: the first sinks the floating reference, the others are
    /// the recipe's own, now on the new object.
    pub fn complete(self, created: Ptr<T>) -> (r: Option<(Envelope<T>, Vec<Call>)>)
        ensures
            r is Some <==> created.addr != 0,
            r matches Some((envelope, calls)) ==> {
                &&& envelope.addr() == created.addr
                &&& call_views(calls@) == seq![ref_sink_call(created.addr)] + all_bound_to(
                    self.pending(),
                    created.addr,
                )
            },
    {
        proof {
            use_type_invariant(&self);
        }
        if created.is_null() {
            return None;
        }
        let (envelope, sink) = Envelope::<T>::from_floating_ptr(created);
        let mut calls: Vec<Call> = Vec::new();
        calls.push(sink);
        let Recipe { create: _, setup, tag: _ } = self;
        let ghost pending = call_views(setup@);
        let ghost wanted = seq![ref_sink_call(created.addr)] + all_bound_to(pending, created.addr);
        let mut setup = setup;
        let mut rest: Vec<Call> = Vec::new();
        // The calls are taken from the end, so they are put back in order
        // afterwards.
        while setup.len() > 0
            invariant
                setup@.len() + rest@.len() == pending.len(),
                call_views(setup@) == pending.take(setup@.len() as int),
                forall|i: int| 0 <= i < setup@.len() ==> (#[trigger] setup@[i])@.args.len() > 0,
                forall|k: int|
                    0 <= k < rest@.len() ==> (#[trigger] rest@[k])@ == bound_to(
                        pending[pending.len() - 1 - k],
                        created.addr,
                    ),
            decreases setup@.len(),
        {
            let ghost n = setup@.len();
            let ghost before = setup@;
            let call = setup.pop().unwrap();
            assert(call@ == pending[n - 1]) by {
                assert(call_views(before)[n - 1] == call@);
            }
            let bound = bind(call, created.addr);
            rest.push(bound);
            assert(call_views(setup@) =~= pending.take(setup@.len() as int));
        }
        while rest.len() > 0
            invariant
                rest@.len() <= pending.len(),
                calls@.len() == 1 + pending.len() - rest@.len(),
                calls@[0]@ == ref_sink_call(created.addr),
                forall|k: int|
                    0 <= k < rest@.len() ==> (#[trigger] rest@[k])@ == bound_to(
                        pending[pending.len() - 1 - k],
                        created.addr,
                    ),
                forall|i: int|
                    1 <= i < calls@.len() ==> (#[trigger] calls@[i])@ == bound_to(
                        pending[i - 1],
                        created.addr,
                    ),
            decreases rest@.len(),
        {
            let call = rest.pop().unwrap();
            calls.push(call);
        }
        assert(call_views(calls@) =~= wanted);
        Some((envelope, calls))
    }
}

/// Puts the address `created` in the first argument of `call`.
fn bind(call: Call, created: usize) -> (r: Call)
    requires
        call@.args.len() > 0,
    ensures
        r@ == bound_to(call@, created),
{
    let Call { symbol, args } = call;
    let mut args = args;
    let ghost before = arg_views(args@);
    args.set(0, Arg::Pointer(created));
    let r = Call { symbol, args };
    assert(r@.args =~= before.update(0, ArgView::Pointer(created)));
    r
}

impl<'a, T: GetGType> Borrowed<'a, T> {
    /// A view of the object at an address that a foreign call returned
    /// without handing over a reference; `None` for the null pointer.
    pub fn check_pointer(ptr: Ptr<T>) -> (r: Option<Self>)
        ensures
            r is Some <==> ptr.addr != 0,
            r matches Some(b) ==> b.addr() == ptr.addr,
    {
        if ptr.is_null() {
            None
        } else {
            Some(Borrowed::from_raw(ptr))
        }
    }
}

} // verus!
