//! The main loop of the toolkit.

use crate::ffi::{Arg, ArgView, Call, CallView, Symbol};
use vstd::prelude::*;

verus! {

/// The call that initializes the toolkit, without arguments of the command
/// line. It is made once, on the thread that will run the main loop, before
/// anything else.
pub fn init() -> (call: Call)
    ensures
        call@ == (CallView {
            symbol: Symbol::GtkInit,
            args: seq![ArgView::Pointer(0), ArgView::Pointer(0)],
        }),
{
    Call::binary(Symbol::GtkInit, Arg::Pointer(0), Arg::Pointer(0))
}

/// The call that runs the main loop until it is asked to quit.
pub fn main() -> (call: Call)
    ensures
        call@ == (CallView { symbol: Symbol::GtkMain, args: seq![] }),
{
    Call::nullary(Symbol::GtkMain)
}

/// The call that asks the innermost main loop to return.
pub fn main_quit() -> (call: Call)
    ensures
        call@ == (CallView { symbol: Symbol::GtkMainQuit, args: seq![] }),
{
    Call::nullary(Symbol::GtkMainQuit)
}

} // verus!
