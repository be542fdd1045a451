//! A position in a text buffer that is kept across changes of the buffer.

use crate::ffi::{Arg, ArgView, Call, CallView, Symbol};
use crate::glib::traits::Ptr;
use crate::glib::translate::{has_nul, CStrBuf};
use crate::glib::{spec_to_gboolean, to_gboolean};
use crate::gtk::ffi::C_GtkTextMark;
use vstd::prelude::*;
use vstd::string::StringSliceAdditionalSpecFns;

verus! {

/// A handle on a text mark.
#[derive(Debug)]
pub struct TextMark {
    ptr: Ptr<C_GtkTextMark>,
}

impl TextMark {
    /// The address of the mark.
    pub closed spec fn addr(&self) -> usize {
        self.ptr.addr
    }

    /// How a mark named `name` is made: the call of its constructor. With left
    /// gravity the mark stays to the left of text typed at its place. The
    /// address that the call returns is wrapped by [`TextMark::wrap`].
    pub fn new(name: &str, left_gravity: bool) -> (call: Call)
        requires
            !has_nul(name.spec_bytes()),
        ensures
            call@ == (CallView {
                symbol: Symbol::GtkTextMarkNew,
                args: seq![
                    ArgView::Str(name.spec_bytes()),
                    ArgView::Int(spec_to_gboolean(left_gravity)),
                ],
            }),
    {
        Call::binary(
            Symbol::GtkTextMarkNew,
            Arg::Str(CStrBuf::from_str(name)),
            Arg::Int(to_gboolean(left_gravity)),
        )
    }

    /// The address of the mark.
    pub fn unwrap(&self) -> (ptr: Ptr<C_GtkTextMark>)
        ensures
            ptr.addr == self.addr(),
    {
        self.ptr
    }

    /// A handle on the mark at `ptr`.
    pub fn wrap(ptr: Ptr<C_GtkTextMark>) -> (mark: TextMark)
        ensures
            mark.addr() == ptr.addr,
    {
        TextMark { ptr }
    }

    /// The call that shows or hides the mark.
    pub fn set_visible(&mut self, setting: bool) -> (call: Call)
        ensures
            call@ == (CallView {
                symbol: Symbol::GtkTextMarkSetVisible,
                args: seq![
                    ArgView::Pointer(old(self).addr()),
                    ArgView::Int(spec_to_gboolean(setting)),
                ],
            }),
            final(self).addr() == old(self).addr(),
    {
        Call::binary(
            Symbol::GtkTextMarkSetVisible,
            Arg::Pointer(self.ptr.addr),
            Arg::Int(to_gboolean(setting)),
        )
    }

    /// The call that asks whether the mark is shown; it returns a truth value.
    pub fn is_visible(&self) -> (call: Call)
        ensures
            call@ == (CallView {
                symbol: Symbol::GtkTextMarkGetVisible,
                args: seq![ArgView::Pointer(self.addr())],
            }),
    {
        Call::unary(Symbol::GtkTextMarkGetVisible, Arg::Pointer(self.ptr.addr))
    }

    /// The call that asks for the name; it returns a string that the mark
    /// keeps, or the null pointer.
    pub fn get_name(&self) -> (call: Call)
        ensures
            call@ == (CallView {
                symbol: Symbol::GtkTextMarkGetName,
                args: seq![ArgView::Pointer(self.addr())],
            }),
    {
        Call::unary(Symbol::GtkTextMarkGetName, Arg::Pointer(self.ptr.addr))
    }

    /// The call that asks whether the mark was taken out of its buffer; it
    /// returns a truth value.
    pub fn is_deleted(&self) -> (call: Call)
        ensures
            call@ == (CallView {
                symbol: Symbol::GtkTextMarkGetDeleted,
                args: seq![ArgView::Pointer(self.addr())],
            }),
    {
        Call::unary(Symbol::GtkTextMarkGetDeleted, Arg::Pointer(self.ptr.addr))
    }

    /// The call that asks whether the mark has left gravity; it returns a truth
    /// value.
    pub fn left_gravity(&self) -> (call: Call)
        ensures
            call@ == (CallView {
                symbol: Symbol::GtkTextMarkGetLeftGravity,
                args: seq![ArgView::Pointer(self.addr())],
            }),
    {
        Call::unary(Symbol::GtkTextMarkGetLeftGravity, Arg::Pointer(self.ptr.addr))
    }
}

} // verus!
