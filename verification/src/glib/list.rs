//! Lists that the foreign side hands over.
//!
//! The nodes of a foreign list are read where the list is received; what
//! reaches this module is the address of the list and the addresses in its
//! nodes, first to last.

use crate::ffi::{Arg, ArgView, Call, CallView, Symbol};
use crate::glib::traits::{call_views, unref_call, Borrowed, GetGType, Ptr};
use core::marker::PhantomData;
use vstd::prelude::*;

verus! {

/// What the receiver of a list owns.
#[derive(Clone, Copy, PartialEq, Eq, Structural, Debug)]
pub enum Transfer {
    /// Nothing: the list and its items stay with the foreign side.
    Nothing,
    /// The nodes of the list, but not the items.
    Container,
    /// The nodes of the list and one reference to each item.
    Full,
}

/// Whether the nodes link one way or both ways.
#[derive(Clone, Copy, PartialEq, Eq, Structural, Debug)]
pub enum Links {
    Single,
    Double,
}

/// A list of objects of class `T`.
#[derive(Debug)]
pub struct List<T> {
    head: usize,
    items: Vec<usize>,
    links: Links,
    transfer: Transfer,
    tag: PhantomData<T>,
}

/// The call that frees the nodes of the list at `head`.
pub open spec fn free_list_call(links: Links, head: usize) -> CallView {
    CallView {
        symbol: match links {
            Links::Single => Symbol::GSListFree,
            Links::Double => Symbol::GListFree,
        },
        args: seq![ArgView::Pointer(head)],
    }
}

/// The calls that give back what the receiver of a list owns: one
/// reference to each item, first to last, where the items were handed
/// over, and then the nodes, where those were handed over.
pub open spec fn release_calls(
    links: Links,
    transfer: Transfer,
    head: usize,
    items: Seq<usize>,
) -> Seq<CallView> {
    match transfer {
        Transfer::Nothing => Seq::empty(),
        Transfer::Container => seq![free_list_call(links, head)],
        Transfer::Full => Seq::new(items.len(), |i: int| unref_call(items[i])).push(
            free_list_call(links, head),
        ),
    }
}

impl<T> List<T> {
    #[verifier::type_invariant]
    spec fn items_not_null(&self) -> bool {
        forall|i: int| 0 <= i < self.items@.len() ==> self.items@[i] != 0
    }
}

impl<T: GetGType> List<T> {
    /// The addresses in the nodes, first to last.
    pub closed spec fn items(&self) -> Seq<usize> {
        self.items@
    }

    /// The address of the first node.
    pub closed spec fn head(&self) -> usize {
        self.head
    }

    pub closed spec fn links(&self) -> Links {
        self.links
    }

    pub closed spec fn transfer(&self) -> Transfer {
        self.transfer
    }

    /// The list at `head` with the addresses `items` in its nodes. An item
    /// that is null ends the list there, as no object stands behind it.
    pub fn new(head: usize, items: Vec<usize>, links: Links, transfer: Transfer) -> (list: Self)
        ensures
            list.head() == head,
            list.links() == links,
            list.transfer() == transfer,
            list.items().len() <= items@.len(),
            list.items() == items@.take(list.items().len() as int),
            forall|i: int| 0 <= i < list.items().len() ==> list.items()[i] != 0,
            list.items().len() < items@.len() ==> items@[list.items().len() as int] == 0,
    {
        let mut kept: Vec<usize> = Vec::new();
        let mut i: usize = 0;
        while i < items.len() && items[i] != 0
            invariant
                i <= items.len(),
                kept@ == items@.take(i as int),
                forall|k: int| 0 <= k < i ==> items@[k] != 0,
            decreases items.len() - i,
        {
            kept.push(items[i]);
            assert(kept@ =~= items@.take(i + 1));
            i += 1;
        }
        List { head, items: kept, links, transfer, tag: PhantomData }
    }

    /// The number of items.
    pub fn len(&self) -> (n: usize)
        ensures
            n == self.items().len(),
    {
        self.items.len()
    }

    /// A view of item `i`, which lasts no longer than the list. No
    /// reference is taken.
    pub fn get<'a>(&'a self, i: usize) -> (item: Borrowed<'a, T>)
        requires
            i < self.items().len(),
        ensures
            crate::glib::traits::AsPtr::addr(&item) == self.items()[i as int],
    {
        proof {
            use_type_invariant(self);
        }
        Borrowed::from_raw(Ptr::new(self.items[i]))
    }

    /// Ends the list: the calls give back what the receiver owned.
    pub fn release(self) -> (calls: Vec<Call>)
        ensures
            call_views(calls@) == release_calls(
                self.links(),
                self.transfer(),
                self.head(),
                self.items(),
            ),
    {
        let mut calls: Vec<Call> = Vec::new();
        let free = match self.links {
            Links::Single => Symbol::GSListFree,
            Links::Double => Symbol::GListFree,
        };
        match self.transfer {
            Transfer::Nothing => {
                assert(call_views(calls@) =~= Seq::<CallView>::empty());
            },
            Transfer::Container => {
                calls.push(Call::unary(free, Arg::Pointer(self.head)));
                assert(call_views(calls@) =~= seq![free_list_call(self.links, self.head)]);
            },
            Transfer::Full => {
                let ghost wanted = Seq::new(self.items@.len(), |i: int| unref_call(self.items@[i]));
                let mut i: usize = 0;
                while i < self.items.len()
                    invariant
                        i <= self.items.len(),
                        wanted == Seq::new(self.items@.len(), |i: int| unref_call(self.items@[i])),
                        call_views(calls@) == wanted.take(i as int),
                    decreases self.items.len() - i,
                {
                    let ghost before = call_views(calls@);
                    let call = Call::unary(Symbol::GObjectUnref, Arg::Pointer(self.items[i]));
                    assert(call@ == wanted[i as int]);
                    calls.push(call);
                    assert(call_views(calls@) =~= before.push(wanted[i as int]));
                    assert(call_views(calls@) =~= wanted.take(i + 1));
                    i += 1;
                }
                assert(wanted.take(self.items@.len() as int) =~= wanted);
                calls.push(Call::unary(free, Arg::Pointer(self.head)));
                assert(call_views(calls@) =~= wanted.push(free_list_call(self.links, self.head)));
            },
        }
        calls
    }
}

} // verus!
