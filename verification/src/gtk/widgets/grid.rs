//! A container that puts its children in rows and columns.

use crate::ffi::{Arg, ArgView, Call, CallView, Symbol};
use crate::glib::traits::{unref_call, Ptr};
use crate::glib::{spec_to_gboolean, to_gboolean};
use crate::gtk::enums::PositionType;
use crate::gtk::ffi::{C_GtkWidget, FFIWidget};
use vstd::prelude::*;

verus! {

/// A handle on a grid. It either owns the widget, when it was made from what a
/// constructor returned, or is a view of a widget that someone else owns.
#[derive(Debug)]
pub struct Grid {
    pointer: Ptr<C_GtkWidget>,
    can_drop: bool,
}

impl Grid {
    /// Whether the handle owns the widget.
    pub closed spec fn owns(&self) -> bool {
        self.can_drop
    }

    pub fn can_drop(&self) -> (b: bool)
        ensures
            b == self.owns(),
    {
        self.can_drop
    }

    /// The handle that owns the widget which a constructor returned at
    /// `pointer`; `None` where the constructor failed and returned the null
    /// pointer.
    pub fn check_pointer(pointer: Ptr<C_GtkWidget>) -> (r: Option<Grid>)
        ensures
            r is Some <==> pointer.addr != 0,
            r matches Some(w) ==> w.widget_addr() == pointer.addr && w.owns(),
    {
        if pointer.is_null() {
            None
        } else {
            Some(Grid { pointer, can_drop: true })
        }
    }

    /// Ends the handle. A handle that owns its widget gives up its one
    /// reference; a view has none to give up.
    pub fn release(self) -> (call: Option<Call>)
        ensures
            call is Some <==> self.owns(),
            call matches Some(c) ==> c@ == unref_call(self.widget_addr()),
    {
        if self.can_drop {
            Some(Call::unary(Symbol::GObjectUnref, Arg::Pointer(self.pointer.addr)))
        } else {
            None
        }
    }

    /// How a grid is made: the call of its constructor.
    pub fn new() -> (call: Call)
        ensures
            call@ == (CallView { symbol: Symbol::GtkGridNew, args: seq![] }),
    {
        Call::nullary(Symbol::GtkGridNew)
    }

    /// The call that puts `child` into the grid: its corner in column `left`
    /// and row `top`, `width` columns wide and `height` rows high.
    pub fn attach<T: FFIWidget>(
        &self,
        child: &T,
        left: i32,
        top: i32,
        width: i32,
        height: i32,
    ) -> (call: Call)
        ensures
            call@ == (CallView {
                symbol: Symbol::GtkGridAttach,
                args: seq![
                    ArgView::Pointer(self.widget_addr()),
                    ArgView::Pointer(child.widget_addr()),
                    ArgView::Int(left),
                    ArgView::Int(top),
                    ArgView::Int(width),
                    ArgView::Int(height),
                ],
            }),
    {
        let mut args: Vec<Arg> = Vec::new();
        args.push(Arg::Pointer(self.pointer.addr));
        args.push(Arg::Pointer(child.get_widget().addr));
        args.push(Arg::Int(left));
        args.push(Arg::Int(top));
        args.push(Arg::Int(width));
        args.push(Arg::Int(height));
        let call = Call::from_args(Symbol::GtkGridAttach, args);
        assert(call@.args =~= seq![
            ArgView::Pointer(self.widget_addr()),
            ArgView::Pointer(child.widget_addr()),
            ArgView::Int(left),
            ArgView::Int(top),
            ArgView::Int(width),
            ArgView::Int(height),
        ]);
        call
    }

    /// The call that puts `child` into the grid at the `side` of `sibling`.
    pub fn attach_next_to<T: FFIWidget>(
        &self,
        child: &T,
        sibling: &T,
        side: PositionType,
        width: i32,
        height: i32,
    ) -> (call: Call)
        ensures
            call@ == (CallView {
                symbol: Symbol::GtkGridAttachNextTo,
                args: seq![
                    ArgView::Pointer(self.widget_addr()),
                    ArgView::Pointer(child.widget_addr()),
                    ArgView::Pointer(sibling.widget_addr()),
                    ArgView::Int(side.spec_to_glib()),
                    ArgView::Int(width),
                    ArgView::Int(height),
                ],
            }),
    {
        let mut args: Vec<Arg> = Vec::new();
        args.push(Arg::Pointer(self.pointer.addr));
        args.push(Arg::Pointer(child.get_widget().addr));
        args.push(Arg::Pointer(sibling.get_widget().addr));
        args.push(Arg::Int(side.to_glib()));
        args.push(Arg::Int(width));
        args.push(Arg::Int(height));
        let call = Call::from_args(Symbol::GtkGridAttachNextTo, args);
        assert(call@.args =~= seq![
            ArgView::Pointer(self.widget_addr()),
            ArgView::Pointer(child.widget_addr()),
            ArgView::Pointer(sibling.widget_addr()),
            ArgView::Int(side.spec_to_glib()),
            ArgView::Int(width),
            ArgView::Int(height),
        ]);
        call
    }

    /// The call that puts an empty row in at `position`.
    pub fn insert_row(&self, position: i32) -> (call: Call)
        ensures
            call@ == (CallView {
                symbol: Symbol::GtkGridInsertRow,
                args: seq![ArgView::Pointer(self.widget_addr()), ArgView::Int(position)],
            }),
    {
        Call::binary(Symbol::GtkGridInsertRow, Arg::Pointer(self.pointer.addr), Arg::Int(position))
    }

    /// The call that puts an empty column in at `position`.
    pub fn insert_column(&self, position: i32) -> (call: Call)
        ensures
            call@ == (CallView {
                symbol: Symbol::GtkGridInsertColumn,
                args: seq![ArgView::Pointer(self.widget_addr()), ArgView::Int(position)],
            }),
    {
        Call::binary(
            Symbol::GtkGridInsertColumn,
            Arg::Pointer(self.pointer.addr),
            Arg::Int(position),
        )
    }

    /// The call that takes the row at `position` out.
    pub fn remove_row(&self, position: i32) -> (call: Call)
        ensures
            call@ == (CallView {
                symbol: Symbol::GtkGridRemoveRow,
                args: seq![ArgView::Pointer(self.widget_addr()), ArgView::Int(position)],
            }),
    {
        Call::binary(Symbol::GtkGridRemoveRow, Arg::Pointer(self.pointer.addr), Arg::Int(position))
    }

    /// The call that takes the column at `position` out.
    pub fn remove_column(&self, position: i32) -> (call: Call)
        ensures
            call@ == (CallView {
                symbol: Symbol::GtkGridRemoveColumn,
                args: seq![ArgView::Pointer(self.widget_addr()), ArgView::Int(position)],
            }),
    {
        Call::binary(
            Symbol::GtkGridRemoveColumn,
            Arg::Pointer(self.pointer.addr),
            Arg::Int(position),
        )
    }

    /// The call that puts an empty row or column in at the `side` of `sibling`.
    pub fn insert_next_to<T: FFIWidget>(&self, sibling: &T, side: PositionType) -> (call: Call)
        ensures
            call@ == (CallView {
                symbol: Symbol::GtkGridInsertNextTo,
                args: seq![
                    ArgView::Pointer(self.widget_addr()),
                    ArgView::Pointer(sibling.widget_addr()),
                    ArgView::Int(side.spec_to_glib()),
                ],
            }),
    {
        Call::ternary(
            Symbol::GtkGridInsertNextTo,
            Arg::Pointer(self.pointer.addr),
            Arg::Pointer(sibling.get_widget().addr),
            Arg::Int(side.to_glib()),
        )
    }

    /// The call that sets whether all rows are of one height.
    pub fn set_row_homogeneous(&self, homogeneous: bool) -> (call: Call)
        ensures
            call@ == (CallView {
                symbol: Symbol::GtkGridSetRowHomogeneous,
                args: seq![
                    ArgView::Pointer(self.widget_addr()),
                    ArgView::Int(spec_to_gboolean(homogeneous)),
                ],
            }),
    {
        Call::binary(
            Symbol::GtkGridSetRowHomogeneous,
            Arg::Pointer(self.pointer.addr),
            Arg::Int(to_gboolean(homogeneous)),
        )
    }

    /// The call that asks whether all rows are of one height; it returns a
    /// truth value.
    pub fn get_row_homogeneous(&self) -> (call: Call)
        ensures
            call@ == (CallView {
                symbol: Symbol::GtkGridGetRowHomogeneous,
                args: seq![ArgView::Pointer(self.widget_addr())],
            }),
    {
        Call::unary(Symbol::GtkGridGetRowHomogeneous, Arg::Pointer(self.pointer.addr))
    }

    /// The call that sets the space between rows.
    pub fn set_row_spacing(&self, spacing: u32) -> (call: Call)
        ensures
            call@ == (CallView {
                symbol: Symbol::GtkGridSetRowSpacing,
                args: seq![ArgView::Pointer(self.widget_addr()), ArgView::UInt(spacing)],
            }),
    {
        Call::binary(
            Symbol::GtkGridSetRowSpacing,
            Arg::Pointer(self.pointer.addr),
            Arg::UInt(spacing),
        )
    }

    /// The call that asks for the space between rows; it returns a `guint`.
    pub fn get_row_spacing(&self) -> (call: Call)
        ensures
            call@ == (CallView {
                symbol: Symbol::GtkGridGetRowSpacing,
                args: seq![ArgView::Pointer(self.widget_addr())],
            }),
    {
        Call::unary(Symbol::GtkGridGetRowSpacing, Arg::Pointer(self.pointer.addr))
    }

    /// The call that sets whether all columns are of one width.
    pub fn set_column_homogeneous(&self, homogeneous: bool) -> (call: Call)
        ensures
            call@ == (CallView {
                symbol: Symbol::GtkGridSetColumnHomogeneous,
                args: seq![
                    ArgView::Pointer(self.widget_addr()),
                    ArgView::Int(spec_to_gboolean(homogeneous)),
                ],
            }),
    {
        Call::binary(
            Symbol::GtkGridSetColumnHomogeneous,
            Arg::Pointer(self.pointer.addr),
            Arg::Int(to_gboolean(homogeneous)),
        )
    }

    /// The call that asks whether all columns are of one width; it returns a
    /// truth value.
    pub fn get_column_homogeneous(&self) -> (call: Call)
        ensures
            call@ == (CallView {
                symbol: Symbol::GtkGridGetColumnHomogeneous,
                args: seq![ArgView::Pointer(self.widget_addr())],
            }),
    {
        Call::unary(Symbol::GtkGridGetColumnHomogeneous, Arg::Pointer(self.pointer.addr))
    }

    /// The call that sets the space between columns.
    pub fn set_column_spacing(&self, spacing: u32) -> (call: Call)
        ensures
            call@ == (CallView {
                symbol: Symbol::GtkGridSetColumnSpacing,
                args: seq![ArgView::Pointer(self.widget_addr()), ArgView::UInt(spacing)],
            }),
    {
        Call::binary(
            Symbol::GtkGridSetColumnSpacing,
            Arg::Pointer(self.pointer.addr),
            Arg::UInt(spacing),
        )
    }

    /// The call that asks for the space between columns; it returns a `guint`.
    pub fn get_column_spacing(&self) -> (call: Call)
        ensures
            call@ == (CallView {
                symbol: Symbol::GtkGridGetColumnSpacing,
                args: seq![ArgView::Pointer(self.widget_addr())],
            }),
    {
        Call::unary(Symbol::GtkGridGetColumnSpacing, Arg::Pointer(self.pointer.addr))
    }

    /// The call that asks which row sets the baseline; it returns a `gint`.
    pub fn get_baseline_row(&self) -> (call: Call)
        ensures
            call@ == (CallView {
                symbol: Symbol::GtkGridGetBaselineRow,
                args: seq![ArgView::Pointer(self.widget_addr())],
            }),
    {
        Call::unary(Symbol::GtkGridGetBaselineRow, Arg::Pointer(self.pointer.addr))
    }

    /// The call that sets which row sets the baseline.
    pub fn set_baseline_row(&self, row: i32) -> (call: Call)
        ensures
            call@ == (CallView {
                symbol: Symbol::GtkGridSetBaselineRow,
                args: seq![ArgView::Pointer(self.widget_addr()), ArgView::Int(row)],
            }),
    {
        Call::binary(Symbol::GtkGridSetBaselineRow, Arg::Pointer(self.pointer.addr), Arg::Int(row))
    }
}

impl FFIWidget for Grid {
    closed spec fn widget_addr(&self) -> usize {
        self.pointer.addr
    }

    fn get_widget(&self) -> (p: Ptr<C_GtkWidget>) {
        self.pointer
    }

    /// A view of the widget at `widget`: the handle does not own it.
    fn wrap(widget: Ptr<C_GtkWidget>) -> (r: Grid)
        ensures
            !r.owns(),
    {
        Grid { pointer: widget, can_drop: false }
    }
}

} // verus!
