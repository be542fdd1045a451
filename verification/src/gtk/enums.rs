//! The enumerations that cross the foreign boundary, each with the integer
//! that the C headers give it.

use libc::{c_int, c_uint};
use vstd::prelude::*;

verus! {

/// The kind of a window.
#[derive(Clone, Copy, PartialEq, Eq, Structural, Debug)]
pub enum WindowType {
    /// A regular window.
    TopLevel,
    /// A window for menus and tooltips.
    PopUp,
}

impl WindowType {
    /// The value in the C headers.
    pub open spec fn spec_to_glib(self) -> c_int {
        match self {
            WindowType::TopLevel => 0,
            WindowType::PopUp => 1,
        }
    }

    #[verifier::when_used_as_spec(spec_to_glib)]
    pub fn to_glib(self) -> (v: c_int)
        ensures
            v == self.spec_to_glib(),
    {
        match self {
            WindowType::TopLevel => 0,
            WindowType::PopUp => 1,
        }
    }

    /// The variant with the value `v`, if there is one.
    pub fn from_glib(v: c_int) -> (r: Option<Self>)
        ensures
            r is Some <==> 0 <= v < 2,
            r matches Some(x) ==> x.spec_to_glib() == v,
    {
        match v {
            0 => Some(WindowType::TopLevel),
            1 => Some(WindowType::PopUp),
            _ => None,
        }
    }
}

/// Where a window is first placed.
#[derive(Clone, Copy, PartialEq, Eq, Structural, Debug)]
pub enum WindowPosition {
    /// No influence on the placement.
    Unset,
    /// In the middle of the screen.
    Center,
    /// At the mouse pointer.
    Mouse,
    /// In the middle of the screen, also after a change of size.
    CenterAlways,
    /// In the middle of the parent window.
    CenterOnParent,
}

impl WindowPosition {
    /// The value in the C headers.
    pub open spec fn spec_to_glib(self) -> c_int {
        match self {
            WindowPosition::Unset => 0,
            WindowPosition::Center => 1,
            WindowPosition::Mouse => 2,
            WindowPosition::CenterAlways => 3,
            WindowPosition::CenterOnParent => 4,
        }
    }

    #[verifier::when_used_as_spec(spec_to_glib)]
    pub fn to_glib(self) -> (v: c_int)
        ensures
            v == self.spec_to_glib(),
    {
        match self {
            WindowPosition::Unset => 0,
            WindowPosition::Center => 1,
            WindowPosition::Mouse => 2,
            WindowPosition::CenterAlways => 3,
            WindowPosition::CenterOnParent => 4,
        }
    }

    /// The variant with the value `v`, if there is one.
    pub fn from_glib(v: c_int) -> (r: Option<Self>)
        ensures
            r is Some <==> 0 <= v < 5,
            r matches Some(x) ==> x.spec_to_glib() == v,
    {
        match v {
            0 => Some(WindowPosition::Unset),
            1 => Some(WindowPosition::Center),
            2 => Some(WindowPosition::Mouse),
            3 => Some(WindowPosition::CenterAlways),
            4 => Some(WindowPosition::CenterOnParent),
            _ => None,
        }
    }
}

/// The direction along which a widget lays out.
#[derive(Clone, Copy, PartialEq, Eq, Structural, Debug)]
pub enum Orientation {
    Horizontal,
    Vertical,
}

impl Orientation {
    /// The value in the C headers.
    pub open spec fn spec_to_glib(self) -> c_int {
        match self {
            Orientation::Horizontal => 0,
            Orientation::Vertical => 1,
        }
    }

    #[verifier::when_used_as_spec(spec_to_glib)]
    pub fn to_glib(self) -> (v: c_int)
        ensures
            v == self.spec_to_glib(),
    {
        match self {
            Orientation::Horizontal => 0,
            Orientation::Vertical => 1,
        }
    }

    /// The variant with the value `v`, if there is one.
    pub fn from_glib(v: c_int) -> (r: Option<Self>)
        ensures
            r is Some <==> 0 <= v < 2,
            r matches Some(x) ==> x.spec_to_glib() == v,
    {
        match v {
            0 => Some(Orientation::Horizontal),
            1 => Some(Orientation::Vertical),
            _ => None,
        }
    }
}

/// The kind of message that a dialog shows.
#[derive(Clone, Copy, PartialEq, Eq, Structural, Debug)]
pub enum MessageType {
    Info,
    Warning,
    Question,
    Error,
    Other,
}

impl MessageType {
    /// The value in the C headers.
    pub open spec fn spec_to_glib(self) -> c_int {
        match self {
            MessageType::Info => 0,
            MessageType::Warning => 1,
            MessageType::Question => 2,
            MessageType::Error => 3,
            MessageType::Other => 4,
        }
    }

    #[verifier::when_used_as_spec(spec_to_glib)]
    pub fn to_glib(self) -> (v: c_int)
        ensures
            v == self.spec_to_glib(),
    {
        match self {
            MessageType::Info => 0,
            MessageType::Warning => 1,
            MessageType::Question => 2,
            MessageType::Error => 3,
            MessageType::Other => 4,
        }
    }

    /// The variant with the value `v`, if there is one.
    pub fn from_glib(v: c_int) -> (r: Option<Self>)
        ensures
            r is Some <==> 0 <= v < 5,
            r matches Some(x) ==> x.spec_to_glib() == v,
    {
        match v {
            0 => Some(MessageType::Info),
            1 => Some(MessageType::Warning),
            2 => Some(MessageType::Question),
            3 => Some(MessageType::Error),
            4 => Some(MessageType::Other),
            _ => None,
        }
    }
}

/// The prebuilt sets of buttons of a message dialog.
#[derive(Clone, Copy, PartialEq, Eq, Structural, Debug)]
pub enum ButtonsType {
    /// No button at all.
    NoButtons,
    /// An OK button.
    Okay,
    Close,
    Cancel,
    YesNo,
    OkCancel,
}

impl ButtonsType {
    /// The value in the C headers.
    pub open spec fn spec_to_glib(self) -> c_int {
        match self {
            ButtonsType::NoButtons => 0,
            ButtonsType::Okay => 1,
            ButtonsType::Close => 2,
            ButtonsType::Cancel => 3,
            ButtonsType::YesNo => 4,
            ButtonsType::OkCancel => 5,
        }
    }

    #[verifier::when_used_as_spec(spec_to_glib)]
    pub fn to_glib(self) -> (v: c_int)
        ensures
            v == self.spec_to_glib(),
    {
        match self {
            ButtonsType::NoButtons => 0,
            ButtonsType::Okay => 1,
            ButtonsType::Close => 2,
            ButtonsType::Cancel => 3,
            ButtonsType::YesNo => 4,
            ButtonsType::OkCancel => 5,
        }
    }

    /// The variant with the value `v`, if there is one.
    pub fn from_glib(v: c_int) -> (r: Option<Self>)
        ensures
            r is Some <==> 0 <= v < 6,
            r matches Some(x) ==> x.spec_to_glib() == v,
    {
        match v {
            0 => Some(ButtonsType::NoButtons),
            1 => Some(ButtonsType::Okay),
            2 => Some(ButtonsType::Close),
            3 => Some(ButtonsType::Cancel),
            4 => Some(ButtonsType::YesNo),
            5 => Some(ButtonsType::OkCancel),
            _ => None,
        }
    }
}

/// How the edges of a button are drawn.
#[derive(Clone, Copy, PartialEq, Eq, Structural, Debug)]
pub enum ReliefStyle {
    /// Edges that are always drawn.
    Normal,
    /// Edges that are drawn half.
    Half,
    /// No edges.
    Flat,
}

impl ReliefStyle {
    /// The value in the C headers.
    pub open spec fn spec_to_glib(self) -> c_int {
        match self {
            ReliefStyle::Normal => 0,
            ReliefStyle::Half => 1,
            ReliefStyle::Flat => 2,
        }
    }

    #[verifier::when_used_as_spec(spec_to_glib)]
    pub fn to_glib(self) -> (v: c_int)
        ensures
            v == self.spec_to_glib(),
    {
        match self {
            ReliefStyle::Normal => 0,
            ReliefStyle::Half => 1,
            ReliefStyle::Flat => 2,
        }
    }

    /// The variant with the value `v`, if there is one.
    pub fn from_glib(v: c_int) -> (r: Option<Self>)
        ensures
            r is Some <==> 0 <= v < 3,
            r matches Some(x) ==> x.spec_to_glib() == v,
    {
        match v {
            0 => Some(ReliefStyle::Normal),
            1 => Some(ReliefStyle::Half),
            2 => Some(ReliefStyle::Flat),
            _ => None,
        }
    }
}

/// The side of a widget.
#[derive(Clone, Copy, PartialEq, Eq, Structural, Debug)]
pub enum PositionType {
    Left,
    Right,
    Top,
    Bottom,
}

impl PositionType {
    /// The value in the C headers.
    pub open spec fn spec_to_glib(self) -> c_int {
        match self {
            PositionType::Left => 0,
            PositionType::Right => 1,
            PositionType::Top => 2,
            PositionType::Bottom => 3,
        }
    }

    #[verifier::when_used_as_spec(spec_to_glib)]
    pub fn to_glib(self) -> (v: c_int)
        ensures
            v == self.spec_to_glib(),
    {
        match self {
            PositionType::Left => 0,
            PositionType::Right => 1,
            PositionType::Top => 2,
            PositionType::Bottom => 3,
        }
    }

    /// The variant with the value `v`, if there is one.
    pub fn from_glib(v: c_int) -> (r: Option<Self>)
        ensures
            r is Some <==> 0 <= v < 4,
            r matches Some(x) ==> x.spec_to_glib() == v,
    {
        match v {
            0 => Some(PositionType::Left),
            1 => Some(PositionType::Right),
            2 => Some(PositionType::Top),
            3 => Some(PositionType::Bottom),
            _ => None,
        }
    }
}

/// The direction in which the items of a menu bar follow each other.
#[derive(Clone, Copy, PartialEq, Eq, Structural, Debug)]
pub enum PackDirection {
    LeftToRight,
    RightToLeft,
    TopToBottom,
    BottomToTop,
}

impl PackDirection {
    /// The value in the C headers.
    pub open spec fn spec_to_glib(self) -> c_int {
        match self {
            PackDirection::LeftToRight => 0,
            PackDirection::RightToLeft => 1,
            PackDirection::TopToBottom => 2,
            PackDirection::BottomToTop => 3,
        }
    }

    #[verifier::when_used_as_spec(spec_to_glib)]
    pub fn to_glib(self) -> (v: c_int)
        ensures
            v == self.spec_to_glib(),
    {
        match self {
            PackDirection::LeftToRight => 0,
            PackDirection::RightToLeft => 1,
            PackDirection::TopToBottom => 2,
            PackDirection::BottomToTop => 3,
        }
    }

    /// The variant with the value `v`, if there is one.
    pub fn from_glib(v: c_int) -> (r: Option<Self>)
        ensures
            r is Some <==> 0 <= v < 4,
            r matches Some(x) ==> x.spec_to_glib() == v,
    {
        match v {
            0 => Some(PackDirection::LeftToRight),
            1 => Some(PackDirection::RightToLeft),
            2 => Some(PackDirection::TopToBottom),
            3 => Some(PackDirection::BottomToTop),
            _ => None,
        }
    }
}

/// What a file chooser is for.
#[derive(Clone, Copy, PartialEq, Eq, Structural, Debug)]
pub enum FileChooserAction {
    Open,
    Save,
    SelectFolder,
    CreateFolder,
}

impl FileChooserAction {
    /// The value in the C headers.
    pub open spec fn spec_to_glib(self) -> c_int {
        match self {
            FileChooserAction::Open => 0,
            FileChooserAction::Save => 1,
            FileChooserAction::SelectFolder => 2,
            FileChooserAction::CreateFolder => 3,
        }
    }

    #[verifier::when_used_as_spec(spec_to_glib)]
    pub fn to_glib(self) -> (v: c_int)
        ensures
            v == self.spec_to_glib(),
    {
        match self {
            FileChooserAction::Open => 0,
            FileChooserAction::Save => 1,
            FileChooserAction::SelectFolder => 2,
            FileChooserAction::CreateFolder => 3,
        }
    }

    /// The variant with the value `v`, if there is one.
    pub fn from_glib(v: c_int) -> (r: Option<Self>)
        ensures
            r is Some <==> 0 <= v < 4,
            r matches Some(x) ==> x.spec_to_glib() == v,
    {
        match v {
            0 => Some(FileChooserAction::Open),
            1 => Some(FileChooserAction::Save),
            2 => Some(FileChooserAction::SelectFolder),
            3 => Some(FileChooserAction::CreateFolder),
            _ => None,
        }
    }
}

/// A dialog blocks input to the other windows of the application.
pub const GTK_DIALOG_MODAL: c_uint = 1;

/// A dialog is destroyed together with its parent window.
pub const GTK_DIALOG_DESTROY_WITH_PARENT: c_uint = 2;

/// A dialog puts its buttons in a header bar.
pub const GTK_DIALOG_USE_HEADER_BAR: c_uint = 4;

/// The flags of a dialog: any of modal, destroy-with-parent and
/// use-header-bar.
#[derive(Clone, Copy, PartialEq, Eq, Structural, Debug)]
pub struct DialogFlags {
    pub modal: bool,
    pub destroy_with_parent: bool,
    pub use_header_bar: bool,
}

impl DialogFlags {
    /// The flags as one integer: the sum of the bits that are set.
    pub open spec fn spec_to_glib(self) -> c_uint {
        ((if self.modal {
            1u32
        } else {
            0u32
        }) + (if self.destroy_with_parent {
            2u32
        } else {
            0u32
        }) + (if self.use_header_bar {
            4u32
        } else {
            0u32
        })) as c_uint
    }

    #[verifier::when_used_as_spec(spec_to_glib)]
    pub fn to_glib(self) -> (v: c_uint)
        ensures
            v == self.spec_to_glib(),
    {
        let mut v: c_uint = 0;
        if self.modal {
            v = v + GTK_DIALOG_MODAL;
        }
        if self.destroy_with_parent {
            v = v + GTK_DIALOG_DESTROY_WITH_PARENT;
        }
        if self.use_header_bar {
            v = v + GTK_DIALOG_USE_HEADER_BAR;
        }
        v
    }

    /// The flags of a dialog made for a parent window, or for none: with a
    /// parent it is modal and destroyed with the parent.
    pub open spec fn spec_for_parent(has_parent: bool) -> DialogFlags {
        DialogFlags { modal: has_parent, destroy_with_parent: has_parent, use_header_bar: false }
    }

    #[verifier::when_used_as_spec(spec_for_parent)]
    pub fn for_parent(has_parent: bool) -> (f: DialogFlags)
        ensures
            f == Self::spec_for_parent(has_parent),
    {
        DialogFlags { modal: has_parent, destroy_with_parent: has_parent, use_header_bar: false }
    }
}

} // verus!
