//! Error records of the foreign side.
//!
//! A foreign call that can fail takes the address of a slot for an error
//! record. [`Error`] is such a slot: it holds the address of a record, or
//! the null pointer while there is none, and frees the record that it holds
//! once.

use crate::ffi::{Arg, ArgView, Call, CallView, Symbol};
use crate::glib::glib_container::GlibContainer;
use crate::glib::traits::Ptr;
use crate::glib::translate::{has_nul, CStrBuf};
use crate::glib::{spec_to_bool, to_bool, Gboolean};
use vstd::prelude::*;
use vstd::string::StringSliceAdditionalSpecFns;

verus! {

/// The identifier of an error domain.
pub type GQuark = u32;

/// The tag of an error record.
#[derive(Debug)]
pub struct C_GError;

/// A slot for an error record.
#[derive(Debug)]
pub struct Error {
    pointer: Ptr<C_GError>,
}

/// The call that frees the error record at `addr`.
pub open spec fn free_call(addr: usize) -> CallView {
    CallView { symbol: Symbol::GErrorFree, args: seq![ArgView::Pointer(addr)] }
}

impl Error {
    /// The address of the record in the slot; zero while there is none.
    pub closed spec fn addr(&self) -> usize {
        self.pointer.addr
    }

    /// An empty slot.
    pub fn empty() -> (e: Error)
        ensures
            e.addr() == 0,
    {
        Error { pointer: Ptr::null() }
    }

    /// The call that makes a record of `domain` and `code` with the text
    /// `message`. It returns the address of the record, which
    /// [`Error::check_pointer`] takes over.
    pub fn new_literal(domain: GQuark, code: i32, message: &str) -> (call: Call)
        requires
            !has_nul(message.spec_bytes()),
        ensures
            call@ == (CallView {
                symbol: Symbol::GErrorNewLiteral,
                args: seq![
                    ArgView::UInt(domain),
                    ArgView::Int(code),
                    ArgView::Str(message.spec_bytes()),
                ],
            }),
    {
        Call::ternary(
            Symbol::GErrorNewLiteral,
            Arg::UInt(domain),
            Arg::Int(code),
            Arg::Str(CStrBuf::from_str(message)),
        )
    }

    /// The slot that holds the record at `pointer`; `None` for the null
    /// pointer.
    pub fn check_pointer(pointer: Ptr<C_GError>) -> (r: Option<Error>)
        ensures
            r is Some <==> pointer.addr != 0,
            r matches Some(e) ==> e.addr() == pointer.addr,
    {
        if pointer.is_null() {
            None
        } else {
            Some(Error { pointer })
        }
    }

    /// Empties the slot. Where it held a record, the call frees the
    /// record; an empty slot has nothing to free, so that a second release
    /// frees nothing.
    pub fn release(&mut self) -> (call: Option<Call>)
        ensures
            final(self).addr() == 0,
            call is Some <==> old(self).addr() != 0,
            call matches Some(c) ==> c@ == free_call(old(self).addr()),
    {
        if !self.pointer.is_null() {
            let call = Call::unary(Symbol::GErrorFree, Arg::Pointer(self.pointer.addr));
            self.pointer = Ptr::null();
            Some(call)
        } else {
            None
        }
    }

    /// The call that asks whether the record is of `domain` and `code`; it
    /// returns a truth value.
    pub fn matches(&self, domain: GQuark, code: i32) -> (call: Call)
        ensures
            call@ == (CallView {
                symbol: Symbol::GErrorMatches,
                args: seq![
                    ArgView::Pointer(self.addr()),
                    ArgView::UInt(domain),
                    ArgView::Int(code),
                ],
            }),
    {
        Call::ternary(
            Symbol::GErrorMatches,
            Arg::Pointer(self.pointer.addr),
            Arg::UInt(domain),
            Arg::Int(code),
        )
    }

    /// The call that puts a new record of `domain` and `code` with the
    /// text `message` into the slot. What the slot holds after the call is
    /// stored with [`Error::assign`].
    pub fn set(&mut self, domain: GQuark, code: i32, message: &str) -> (call: Call)
        requires
            !has_nul(message.spec_bytes()),
        ensures
            call@ == (CallView {
                symbol: Symbol::GSetErrorLiteral,
                args: seq![
                    ArgView::Pointer(old(self).addr()),
                    ArgView::UInt(domain),
                    ArgView::Int(code),
                    ArgView::Str(message.spec_bytes()),
                ],
            }),
            final(self).addr() == old(self).addr(),
    {
        Call::quaternary(
            Symbol::GSetErrorLiteral,
            Arg::Pointer(self.pointer.addr),
            Arg::UInt(domain),
            Arg::Int(code),
            Arg::Str(CStrBuf::from_str(message)),
        )
    }

    /// The call that moves the record of `other` into the slot. What the
    /// slot holds after the call is stored with [`Error::assign`].
    pub fn propagate(&mut self, other: &Error) -> (call: Call)
        ensures
            call@ == (CallView {
                symbol: Symbol::GPropagateError,
                args: seq![ArgView::Pointer(old(self).addr()), ArgView::Pointer(other.addr())],
            }),
            final(self).addr() == old(self).addr(),
    {
        Call::binary(
            Symbol::GPropagateError,
            Arg::Pointer(self.pointer.addr),
            Arg::Pointer(other.pointer.addr),
        )
    }

    /// The call that copies the record; it returns the address of the
    /// copy, or the null pointer.
    pub fn copy(&self) -> (call: Call)
        ensures
            call@ == (CallView {
                symbol: Symbol::GErrorCopy,
                args: seq![ArgView::Pointer(self.addr())],
            }),
    {
        Call::unary(Symbol::GErrorCopy, Arg::Pointer(self.pointer.addr))
    }

    /// What a fallible call came to, from the truth value that it returned
    /// and the slot that it was given: success where it returned true and
    /// left the slot empty, else the slot with whatever record it holds.
    pub fn check(self, status: Gboolean) -> (r: Result<(), Error>)
        ensures
            r is Ok <==> spec_to_bool(status) && self.addr() == 0,
            r matches Err(e) ==> e.addr() == self.addr(),
    {
        if to_bool(status) && self.pointer.is_null() {
            Ok(())
        } else {
            Err(self)
        }
    }

    /// Stores what a foreign call left in the slot.
    pub fn assign(&mut self, pointer: Ptr<C_GError>)
        ensures
            final(self).addr() == pointer.addr,
    {
        self.pointer = pointer;
    }
}

impl GlibContainer<Ptr<C_GError>> for Error {
    open spec fn held(&self) -> Ptr<C_GError> {
        Ptr { addr: self.addr(), tag: core::marker::PhantomData }
    }

    fn wrap(pointer: Ptr<C_GError>) -> (r: Error) {
        Error { pointer }
    }

    fn unwrap(&self) -> (pointer: Ptr<C_GError>) {
        self.pointer
    }
}

} // verus!
