//! The size of a sheet of paper.

use crate::ffi::{Arg, ArgView, Call, CallView, Symbol};
use crate::glib::traits::{call_views, unref_call, Ptr};
use crate::glib::translate::{has_nul, CStrBuf};
use crate::glib::{spec_to_gboolean, to_gboolean};
use crate::gtk::ffi::{C_GtkWidget, FFIWidget};
use vstd::prelude::*;
use vstd::string::StringSliceAdditionalSpecFns;

verus! {

/// A handle on a paper size. It either owns the widget, when it was made from
/// what a constructor returned, or is a view of a widget that someone else
/// owns.
#[derive(Debug)]
pub struct PaperSize {
    pointer: Ptr<C_GtkWidget>,
    can_drop: bool,
}

impl PaperSize {
    /// Whether the handle owns the widget.
    pub closed spec fn owns(&self) -> bool {
        self.can_drop
    }

    pub fn can_drop(&self) -> (b: bool)
        ensures
            b == self.owns(),
    {
        self.can_drop
    }

    /// The handle that owns the widget which a constructor returned at
    /// `pointer`; `None` where the constructor failed and returned the null
    /// pointer.
    pub fn check_pointer(pointer: Ptr<C_GtkWidget>) -> (r: Option<PaperSize>)
        ensures
            r is Some <==> pointer.addr != 0,
            r matches Some(w) ==> w.widget_addr() == pointer.addr && w.owns(),
    {
        if pointer.is_null() {
            None
        } else {
            Some(PaperSize { pointer, can_drop: true })
        }
    }

    /// Ends the handle. A handle that owns its paper size frees the record
    /// and then gives up its one reference; a view does neither.
    pub fn release(self) -> (calls: Vec<Call>)
        ensures
            call_views(calls@) == if self.owns() {
                seq![
                    (CallView {
                        symbol: Symbol::GtkPaperSizeFree,
                        args: seq![ArgView::Pointer(self.widget_addr())],
                    }),
                    unref_call(self.widget_addr()),
                ]
            } else {
                Seq::<CallView>::empty()
            },
    {
        let mut calls: Vec<Call> = Vec::new();
        if self.can_drop {
            calls.push(Call::unary(Symbol::GtkPaperSizeFree, Arg::Pointer(self.pointer.addr)));
            calls.push(Call::unary(Symbol::GObjectUnref, Arg::Pointer(self.pointer.addr)));
        }
        assert(call_views(calls@) =~= if self.owns() {
            seq![
                (CallView {
                    symbol: Symbol::GtkPaperSizeFree,
                    args: seq![ArgView::Pointer(self.widget_addr())],
                }),
                unref_call(self.widget_addr()),
            ]
        } else {
            Seq::<CallView>::empty()
        });
        calls
    }

    /// How the paper size named `name` is made: the call of its constructor.
    pub fn new(name: &str) -> (call: Call)
        requires
            !has_nul(name.spec_bytes()),
        ensures
            call@ == (CallView {
                symbol: Symbol::GtkPaperSizeNew,
                args: seq![ArgView::Str(name.spec_bytes())],
            }),
    {
        Call::unary(Symbol::GtkPaperSizeNew, Arg::Str(CStrBuf::from_str(name)))
    }

    /// The call that asks for the name of the paper size that the locale uses;
    /// it returns a string that the toolkit keeps.
    pub fn get_default() -> (call: Call)
        ensures
            call@ == (CallView { symbol: Symbol::GtkPaperSizeGetDefault, args: seq![] }),
    {
        Call::nullary(Symbol::GtkPaperSizeGetDefault)
    }

    /// The call that asks for the known paper sizes, with or without those that
    /// the user defined; it returns a list whose nodes and items are handed
    /// over.
    pub fn get_paper_sizes(include_custom: bool) -> (call: Call)
        ensures
            call@ == (CallView {
                symbol: Symbol::GtkPaperSizeGetPaperSizes,
                args: seq![ArgView::Int(spec_to_gboolean(include_custom))],
            }),
    {
        Call::unary(Symbol::GtkPaperSizeGetPaperSizes, Arg::Int(to_gboolean(include_custom)))
    }

    /// The call that copies the paper size; it returns the address of the copy.
    pub fn copy(&self) -> (call: Call)
        ensures
            call@ == (CallView {
                symbol: Symbol::GtkPaperSizeCopy,
                args: seq![ArgView::Pointer(self.widget_addr())],
            }),
    {
        Call::unary(Symbol::GtkPaperSizeCopy, Arg::Pointer(self.pointer.addr))
    }

    /// The call that asks whether `other` is the same paper size; it returns a
    /// truth value.
    pub fn is_equal<T: FFIWidget>(&self, other: &T) -> (call: Call)
        ensures
            call@ == (CallView {
                symbol: Symbol::GtkPaperSizeIsEqual,
                args: seq![
                    ArgView::Pointer(self.widget_addr()),
                    ArgView::Pointer(other.widget_addr()),
                ],
            }),
    {
        Call::binary(
            Symbol::GtkPaperSizeIsEqual,
            Arg::Pointer(self.pointer.addr),
            Arg::Pointer(other.get_widget().addr),
        )
    }

    /// The call that asks for the name; it returns a string that the paper size
    /// keeps.
    pub fn get_name(&self) -> (call: Call)
        ensures
            call@ == (CallView {
                symbol: Symbol::GtkPaperSizeGetName,
                args: seq![ArgView::Pointer(self.widget_addr())],
            }),
    {
        Call::unary(Symbol::GtkPaperSizeGetName, Arg::Pointer(self.pointer.addr))
    }

    /// The call that asks for the name to show; it returns a string that the
    /// paper size keeps.
    pub fn get_display_name_name(&self) -> (call: Call)
        ensures
            call@ == (CallView {
                symbol: Symbol::GtkPaperSizeGetDisplayName,
                args: seq![ArgView::Pointer(self.widget_addr())],
            }),
    {
        Call::unary(Symbol::GtkPaperSizeGetDisplayName, Arg::Pointer(self.pointer.addr))
    }

    /// The call that asks for the name in printer descriptions; it returns a
    /// string that the paper size keeps.
    pub fn get_ppd_name(&self) -> (call: Call)
        ensures
            call@ == (CallView {
                symbol: Symbol::GtkPaperSizeGetPpdName,
                args: seq![ArgView::Pointer(self.widget_addr())],
            }),
    {
        Call::unary(Symbol::GtkPaperSizeGetPpdName, Arg::Pointer(self.pointer.addr))
    }

    /// The call that asks whether the user defined the paper size; it returns a
    /// truth value.
    pub fn is_custom(&self) -> (call: Call)
        ensures
            call@ == (CallView {
                symbol: Symbol::GtkPaperSizeIsCustom,
                args: seq![ArgView::Pointer(self.widget_addr())],
            }),
    {
        Call::unary(Symbol::GtkPaperSizeIsCustom, Arg::Pointer(self.pointer.addr))
    }
}

impl FFIWidget for PaperSize {
    closed spec fn widget_addr(&self) -> usize {
        self.pointer.addr
    }

    fn get_widget(&self) -> (p: Ptr<C_GtkWidget>) {
        self.pointer
    }

    /// A view of the widget at `widget`: the handle does not own it.
    fn wrap(widget: Ptr<C_GtkWidget>) -> (r: PaperSize)
        ensures
            !r.owns(),
    {
        PaperSize { pointer: widget, can_drop: false }
    }
}

} // verus!
