//! The class lattice of the object system: every class has at most one parent
//! class and may implement interfaces; `Object` is the single root.

use vstd::prelude::*;
use vstd::string::StringSliceAdditionalSpecFns;

verus! {

/// The runtime identifier of a class or interface of the object system.
#[derive(Clone, Copy, PartialEq, Eq, Structural, Debug)]
pub enum ClassId {
    Object,
    InitiallyUnowned,
    Orientable,
    ToolShell,
    FileChooser,
    AppChooser,
    FontChooser,
    ColorChooser,
    RecentChooser,
    Editable,
    Scrollable,
    Buildable,
    AppInfo,
    EntryBuffer,
    PrintSettings,
    PageSetup,
    RecentManager,
    Builder,
    AppLaunchContext,
    MenuModel,
    Adjustment,
    FileFilter,
    RecentFilter,
    Widget,
    Container,
    Bin,
    Window,
    Dialog,
    AboutDialog,
    MessageDialog,
    AppChooserDialog,
    ColorChooserDialog,
    FileChooserDialog,
    FontChooserDialog,
    RecentChooserDialog,
    Button,
    ToggleButton,
    CheckButton,
    MenuButton,
    ColorButton,
    FontButton,
    LinkButton,
    ScaleButton,
    VolumeButton,
    ComboBox,
    Frame,
    AspectFrame,
    Alignment,
    Expander,
    Revealer,
    Overlay,
    SearchBar,
    FlowBoxChild,
    ListBoxRow,
    ActionBar,
    ToolItem,
    ToolButton,
    MenuToolButton,
    ToggleToolButton,
    RadioToolButton,
    SeparatorToolItem,
    Box,
    ButtonBox,
    InfoBar,
    StackSwitcher,
    Fixed,
    Grid,
    Paned,
    Toolbar,
    Notebook,
    Stack,
    Layout,
    HeaderBar,
    FlowBox,
    ListBox,
    MenuShell,
    Menu,
    Misc,
    Label,
    Arrow,
    Image,
    Range,
    Scale,
    Entry,
    SearchEntry,
    SpinButton,
    Switch,
    LevelBar,
    Spinner,
    ProgressBar,
    Calendar,
    Invisible,
}

impl ClassId {
    /// The class this one derives from; `None` for the root alone.
    /// An interface derives from the root.
    pub open spec fn spec_parent(self) -> Option<ClassId> {
        match self {
            ClassId::Object => None,
            ClassId::InitiallyUnowned
            | ClassId::Orientable
            | ClassId::ToolShell
            | ClassId::FileChooser
            | ClassId::AppChooser
            | ClassId::FontChooser
            | ClassId::ColorChooser
            | ClassId::RecentChooser
            | ClassId::Editable
            | ClassId::Scrollable
            | ClassId::Buildable
            | ClassId::AppInfo
            | ClassId::EntryBuffer
            | ClassId::PrintSettings
            | ClassId::PageSetup
            | ClassId::RecentManager
            | ClassId::Builder
            | ClassId::AppLaunchContext
            | ClassId::MenuModel => Some(ClassId::Object),
            ClassId::Adjustment
            | ClassId::FileFilter
            | ClassId::RecentFilter
            | ClassId::Widget => Some(ClassId::InitiallyUnowned),
            ClassId::Container
            | ClassId::Misc
            | ClassId::Range
            | ClassId::Entry
            | ClassId::Switch
            | ClassId::LevelBar
            | ClassId::Spinner
            | ClassId::ProgressBar
            | ClassId::Calendar
            | ClassId::Invisible => Some(ClassId::Widget),
            ClassId::Bin
            | ClassId::Box
            | ClassId::Fixed
            | ClassId::Grid
            | ClassId::Paned
            | ClassId::Toolbar
            | ClassId::Notebook
            | ClassId::Stack
            | ClassId::Layout
            | ClassId::HeaderBar
            | ClassId::FlowBox
            | ClassId::ListBox
            | ClassId::MenuShell => Some(ClassId::Container),
            ClassId::Window
            | ClassId::Button
            | ClassId::ComboBox
            | ClassId::Frame
            | ClassId::Alignment
            | ClassId::Expander
            | ClassId::Revealer
            | ClassId::Overlay
            | ClassId::SearchBar
            | ClassId::FlowBoxChild
            | ClassId::ListBoxRow
            | ClassId::ActionBar
            | ClassId::ToolItem => Some(ClassId::Bin),
            ClassId::Dialog => Some(ClassId::Window),
            ClassId::AboutDialog
            | ClassId::MessageDialog
            | ClassId::AppChooserDialog
            | ClassId::ColorChooserDialog
            | ClassId::FileChooserDialog
            | ClassId::FontChooserDialog
            | ClassId::RecentChooserDialog => Some(ClassId::Dialog),
            ClassId::ToggleButton
            | ClassId::ColorButton
            | ClassId::FontButton
            | ClassId::LinkButton
            | ClassId::ScaleButton => Some(ClassId::Button),
            ClassId::CheckButton
            | ClassId::MenuButton => Some(ClassId::ToggleButton),
            ClassId::VolumeButton => Some(ClassId::ScaleButton),
            ClassId::AspectFrame => Some(ClassId::Frame),
            ClassId::ToolButton
            | ClassId::SeparatorToolItem => Some(ClassId::ToolItem),
            ClassId::MenuToolButton
            | ClassId::ToggleToolButton => Some(ClassId::ToolButton),
            ClassId::RadioToolButton => Some(ClassId::ToggleToolButton),
            ClassId::ButtonBox
            | ClassId::InfoBar
            | ClassId::StackSwitcher => Some(ClassId::Box),
            ClassId::Menu => Some(ClassId::MenuShell),
            ClassId::Label
            | ClassId::Arrow
            | ClassId::Image => Some(ClassId::Misc),
            ClassId::Scale => Some(ClassId::Range),
            ClassId::SearchEntry
            | ClassId::SpinButton => Some(ClassId::Entry),
        }
    }

    /// The number of edges between this class and the root.
    pub open spec fn rank(self) -> nat {
        match self {
            ClassId::Object => 0,
            ClassId::InitiallyUnowned
            | ClassId::Orientable
            | ClassId::ToolShell
            | ClassId::FileChooser
            | ClassId::AppChooser
            | ClassId::FontChooser
            | ClassId::ColorChooser
            | ClassId::RecentChooser
            | ClassId::Editable
            | ClassId::Scrollable
            | ClassId::Buildable
            | ClassId::AppInfo
            | ClassId::EntryBuffer
            | ClassId::PrintSettings
            | ClassId::PageSetup
            | ClassId::RecentManager
            | ClassId::Builder
            | ClassId::AppLaunchContext
            | ClassId::MenuModel => 1,
            ClassId::Adjustment
            | ClassId::FileFilter
            | ClassId::RecentFilter
            | ClassId::Widget => 2,
            ClassId::Container
            | ClassId::Misc
            | ClassId::Range
            | ClassId::Entry
            | ClassId::Switch
            | ClassId::LevelBar
            | ClassId::Spinner
            | ClassId::ProgressBar
            | ClassId::Calendar
            | ClassId::Invisible => 3,
            ClassId::Bin
            | ClassId::Box
            | ClassId::Fixed
            | ClassId::Grid
            | ClassId::Paned
            | ClassId::Toolbar
            | ClassId::Notebook
            | ClassId::Stack
            | ClassId::Layout
            | ClassId::HeaderBar
            | ClassId::FlowBox
            | ClassId::ListBox
            | ClassId::MenuShell
            | ClassId::Label
            | ClassId::Arrow
            | ClassId::Image
            | ClassId::Scale
            | ClassId::SearchEntry
            | ClassId::SpinButton => 4,
            ClassId::Window
            | ClassId::Button
            | ClassId::ComboBox
            | ClassId::Frame
            | ClassId::Alignment
            | ClassId::Expander
            | ClassId::Revealer
            | ClassId::Overlay
            | ClassId::SearchBar
            | ClassId::FlowBoxChild
            | ClassId::ListBoxRow
            | ClassId::ActionBar
            | ClassId::ToolItem
            | ClassId::ButtonBox
            | ClassId::InfoBar
            | ClassId::StackSwitcher
            | ClassId::Menu => 5,
            ClassId::Dialog
            | ClassId::ToggleButton
            | ClassId::ColorButton
            | ClassId::FontButton
            | ClassId::LinkButton
            | ClassId::ScaleButton
            | ClassId::AspectFrame
            | ClassId::ToolButton
            | ClassId::SeparatorToolItem => 6,
            ClassId::AboutDialog
            | ClassId::MessageDialog
            | ClassId::AppChooserDialog
            | ClassId::ColorChooserDialog
            | ClassId::FileChooserDialog
            | ClassId::FontChooserDialog
            | ClassId::RecentChooserDialog
            | ClassId::CheckButton
            | ClassId::MenuButton
            | ClassId::VolumeButton
            | ClassId::MenuToolButton
            | ClassId::ToggleToolButton => 7,
            ClassId::RadioToolButton => 8,
        }
    }

    /// Whether this identifier names an interface.
    pub open spec fn spec_is_interface(self) -> bool {
        match self {
            ClassId::Orientable
            | ClassId::ToolShell
            | ClassId::FileChooser
            | ClassId::AppChooser
            | ClassId::FontChooser
            | ClassId::ColorChooser
            | ClassId::RecentChooser
            | ClassId::Editable
            | ClassId::Scrollable
            | ClassId::Buildable
            | ClassId::AppInfo => true,
            _ => false,
        }
    }

    /// Whether this class itself (not an ancestor) declares that it
    /// implements `iface`.
    pub open spec fn spec_implements(self, iface: ClassId) -> bool {
        match (self, iface) {
            (ClassId::FileFilter, ClassId::Buildable)
            | (ClassId::RecentFilter, ClassId::Buildable)
            | (ClassId::Widget, ClassId::Buildable)
            | (ClassId::AppChooserDialog, ClassId::AppChooser)
            | (ClassId::ColorChooserDialog, ClassId::ColorChooser)
            | (ClassId::FileChooserDialog, ClassId::FileChooser)
            | (ClassId::FontChooserDialog, ClassId::FontChooser)
            | (ClassId::RecentChooserDialog, ClassId::RecentChooser)
            | (ClassId::ColorButton, ClassId::ColorChooser)
            | (ClassId::FontButton, ClassId::FontChooser)
            | (ClassId::ScaleButton, ClassId::Orientable)
            | (ClassId::Box, ClassId::Orientable)
            | (ClassId::Grid, ClassId::Orientable)
            | (ClassId::Paned, ClassId::Orientable)
            | (ClassId::Toolbar, ClassId::Orientable)
            | (ClassId::Toolbar, ClassId::ToolShell)
            | (ClassId::Layout, ClassId::Scrollable)
            | (ClassId::FlowBox, ClassId::Orientable)
            | (ClassId::Range, ClassId::Orientable)
            | (ClassId::Entry, ClassId::Editable)
            | (ClassId::SpinButton, ClassId::Orientable)
            | (ClassId::LevelBar, ClassId::Orientable)
            | (ClassId::ProgressBar, ClassId::Orientable) => true,
            _ => false,
        }
    }

    #[verifier::when_used_as_spec(spec_parent)]
    pub fn parent(self) -> (p: Option<ClassId>)
        ensures
            p == self.spec_parent(),
    {
        match self {
            ClassId::Object => None,
            ClassId::InitiallyUnowned
            | ClassId::Orientable
            | ClassId::ToolShell
            | ClassId::FileChooser
            | ClassId::AppChooser
            | ClassId::FontChooser
            | ClassId::ColorChooser
            | ClassId::RecentChooser
            | ClassId::Editable
            | ClassId::Scrollable
            | ClassId::Buildable
            | ClassId::AppInfo
            | ClassId::EntryBuffer
            | ClassId::PrintSettings
            | ClassId::PageSetup
            | ClassId::RecentManager
            | ClassId::Builder
            | ClassId::AppLaunchContext
            | ClassId::MenuModel => Some(ClassId::Object),
            ClassId::Adjustment
            | ClassId::FileFilter
            | ClassId::RecentFilter
            | ClassId::Widget => Some(ClassId::InitiallyUnowned),
            ClassId::Container
            | ClassId::Misc
            | ClassId::Range
            | ClassId::Entry
            | ClassId::Switch
            | ClassId::LevelBar
            | ClassId::Spinner
            | ClassId::ProgressBar
            | ClassId::Calendar
            | ClassId::Invisible => Some(ClassId::Widget),
            ClassId::Bin
            | ClassId::Box
            | ClassId::Fixed
            | ClassId::Grid
            | ClassId::Paned
            | ClassId::Toolbar
            | ClassId::Notebook
            | ClassId::Stack
            | ClassId::Layout
            | ClassId::HeaderBar
            | ClassId::FlowBox
            | ClassId::ListBox
            | ClassId::MenuShell => Some(ClassId::Container),
            ClassId::Window
            | ClassId::Button
            | ClassId::ComboBox
            | ClassId::Frame
            | ClassId::Alignment
            | ClassId::Expander
            | ClassId::Revealer
            | ClassId::Overlay
            | ClassId::SearchBar
            | ClassId::FlowBoxChild
            | ClassId::ListBoxRow
            | ClassId::ActionBar
            | ClassId::ToolItem => Some(ClassId::Bin),
            ClassId::Dialog => Some(ClassId::Window),
            ClassId::AboutDialog
            | ClassId::MessageDialog
            | ClassId::AppChooserDialog
            | ClassId::ColorChooserDialog
            | ClassId::FileChooserDialog
            | ClassId::FontChooserDialog
            | ClassId::RecentChooserDialog => Some(ClassId::Dialog),
            ClassId::ToggleButton
            | ClassId::ColorButton
            | ClassId::FontButton
            | ClassId::LinkButton
            | ClassId::ScaleButton => Some(ClassId::Button),
            ClassId::CheckButton
            | ClassId::MenuButton => Some(ClassId::ToggleButton),
            ClassId::VolumeButton => Some(ClassId::ScaleButton),
            ClassId::AspectFrame => Some(ClassId::Frame),
            ClassId::ToolButton
            | ClassId::SeparatorToolItem => Some(ClassId::ToolItem),
            ClassId::MenuToolButton
            | ClassId::ToggleToolButton => Some(ClassId::ToolButton),
            ClassId::RadioToolButton => Some(ClassId::ToggleToolButton),
            ClassId::ButtonBox
            | ClassId::InfoBar
            | ClassId::StackSwitcher => Some(ClassId::Box),
            ClassId::Menu => Some(ClassId::MenuShell),
            ClassId::Label
            | ClassId::Arrow
            | ClassId::Image => Some(ClassId::Misc),
            ClassId::Scale => Some(ClassId::Range),
            ClassId::SearchEntry
            | ClassId::SpinButton => Some(ClassId::Entry),
        }
    }

    #[verifier::when_used_as_spec(spec_is_interface)]
    pub fn is_interface(self) -> (b: bool)
        ensures
            b == self.spec_is_interface(),
    {
        match self {
            ClassId::Orientable
            | ClassId::ToolShell
            | ClassId::FileChooser
            | ClassId::AppChooser
            | ClassId::FontChooser
            | ClassId::ColorChooser
            | ClassId::RecentChooser
            | ClassId::Editable
            | ClassId::Scrollable
            | ClassId::Buildable
            | ClassId::AppInfo => true,
            _ => false,
        }
    }

    #[verifier::when_used_as_spec(spec_implements)]
    pub fn implements(self, iface: ClassId) -> (b: bool)
        ensures
            b == self.spec_implements(iface),
    {
        match (self, iface) {
            (ClassId::FileFilter, ClassId::Buildable)
            | (ClassId::RecentFilter, ClassId::Buildable)
            | (ClassId::Widget, ClassId::Buildable)
            | (ClassId::AppChooserDialog, ClassId::AppChooser)
            | (ClassId::ColorChooserDialog, ClassId::ColorChooser)
            | (ClassId::FileChooserDialog, ClassId::FileChooser)
            | (ClassId::FontChooserDialog, ClassId::FontChooser)
            | (ClassId::RecentChooserDialog, ClassId::RecentChooser)
            | (ClassId::ColorButton, ClassId::ColorChooser)
            | (ClassId::FontButton, ClassId::FontChooser)
            | (ClassId::ScaleButton, ClassId::Orientable)
            | (ClassId::Box, ClassId::Orientable)
            | (ClassId::Grid, ClassId::Orientable)
            | (ClassId::Paned, ClassId::Orientable)
            | (ClassId::Toolbar, ClassId::Orientable)
            | (ClassId::Toolbar, ClassId::ToolShell)
            | (ClassId::Layout, ClassId::Scrollable)
            | (ClassId::FlowBox, ClassId::Orientable)
            | (ClassId::Range, ClassId::Orientable)
            | (ClassId::Entry, ClassId::Editable)
            | (ClassId::SpinButton, ClassId::Orientable)
            | (ClassId::LevelBar, ClassId::Orientable)
            | (ClassId::ProgressBar, ClassId::Orientable) => true,
            _ => false,
        }
    }

    /// The name under which the type system knows the class.
    pub open spec fn spec_class_name(self) -> &'static str {
        match self {
            ClassId::Object => "GObject",
            ClassId::InitiallyUnowned => "GInitiallyUnowned",
            ClassId::Orientable => "GtkOrientable",
            ClassId::ToolShell => "GtkToolShell",
            ClassId::FileChooser => "GtkFileChooser",
            ClassId::AppChooser => "GtkAppChooser",
            ClassId::FontChooser => "GtkFontChooser",
            ClassId::ColorChooser => "GtkColorChooser",
            ClassId::RecentChooser => "GtkRecentChooser",
            ClassId::Editable => "GtkEditable",
            ClassId::Scrollable => "GtkScrollable",
            ClassId::Buildable => "GtkBuildable",
            ClassId::AppInfo => "GAppInfo",
            ClassId::EntryBuffer => "GtkEntryBuffer",
            ClassId::PrintSettings => "GtkPrintSettings",
            ClassId::PageSetup => "GtkPageSetup",
            ClassId::RecentManager => "GtkRecentManager",
            ClassId::Builder => "GtkBuilder",
            ClassId::AppLaunchContext => "GAppLaunchContext",
            ClassId::MenuModel => "GMenuModel",
            ClassId::Adjustment => "GtkAdjustment",
            ClassId::FileFilter => "GtkFileFilter",
            ClassId::RecentFilter => "GtkRecentFilter",
            ClassId::Widget => "GtkWidget",
            ClassId::Container => "GtkContainer",
            ClassId::Bin => "GtkBin",
            ClassId::Window => "GtkWindow",
            ClassId::Dialog => "GtkDialog",
            ClassId::AboutDialog => "GtkAboutDialog",
            ClassId::MessageDialog => "GtkMessageDialog",
            ClassId::AppChooserDialog => "GtkAppChooserDialog",
            ClassId::ColorChooserDialog => "GtkColorChooserDialog",
            ClassId::FileChooserDialog => "GtkFileChooserDialog",
            ClassId::FontChooserDialog => "GtkFontChooserDialog",
            ClassId::RecentChooserDialog => "GtkRecentChooserDialog",
            ClassId::Button => "GtkButton",
            ClassId::ToggleButton => "GtkToggleButton",
            ClassId::CheckButton => "GtkCheckButton",
            ClassId::MenuButton => "GtkMenuButton",
            ClassId::ColorButton => "GtkColorButton",
            ClassId::FontButton => "GtkFontButton",
            ClassId::LinkButton => "GtkLinkButton",
            ClassId::ScaleButton => "GtkScaleButton",
            ClassId::VolumeButton => "GtkVolumeButton",
            ClassId::ComboBox => "GtkComboBox",
            ClassId::Frame => "GtkFrame",
            ClassId::AspectFrame => "GtkAspectFrame",
            ClassId::Alignment => "GtkAlignment",
            ClassId::Expander => "GtkExpander",
            ClassId::Revealer => "GtkRevealer",
            ClassId::Overlay => "GtkOverlay",
            ClassId::SearchBar => "GtkSearchBar",
            ClassId::FlowBoxChild => "GtkFlowBoxChild",
            ClassId::ListBoxRow => "GtkListBoxRow",
            ClassId::ActionBar => "GtkActionBar",
            ClassId::ToolItem => "GtkToolItem",
            ClassId::ToolButton => "GtkToolButton",
            ClassId::MenuToolButton => "GtkMenuToolButton",
            ClassId::ToggleToolButton => "GtkToggleToolButton",
            ClassId::RadioToolButton => "GtkRadioToolButton",
            ClassId::SeparatorToolItem => "GtkSeparatorToolItem",
            ClassId::Box => "GtkBox",
            ClassId::ButtonBox => "GtkButtonBox",
            ClassId::InfoBar => "GtkInfoBar",
            ClassId::StackSwitcher => "GtkStackSwitcher",
            ClassId::Fixed => "GtkFixed",
            ClassId::Grid => "GtkGrid",
            ClassId::Paned => "GtkPaned",
            ClassId::Toolbar => "GtkToolbar",
            ClassId::Notebook => "GtkNotebook",
            ClassId::Stack => "GtkStack",
            ClassId::Layout => "GtkLayout",
            ClassId::HeaderBar => "GtkHeaderBar",
            ClassId::FlowBox => "GtkFlowBox",
            ClassId::ListBox => "GtkListBox",
            ClassId::MenuShell => "GtkMenuShell",
            ClassId::Menu => "GtkMenu",
            ClassId::Misc => "GtkMisc",
            ClassId::Label => "GtkLabel",
            ClassId::Arrow => "GtkArrow",
            ClassId::Image => "GtkImage",
            ClassId::Range => "GtkRange",
            ClassId::Scale => "GtkScale",
            ClassId::Entry => "GtkEntry",
            ClassId::SearchEntry => "GtkSearchEntry",
            ClassId::SpinButton => "GtkSpinButton",
            ClassId::Switch => "GtkSwitch",
            ClassId::LevelBar => "GtkLevelBar",
            ClassId::Spinner => "GtkSpinner",
            ClassId::ProgressBar => "GtkProgressBar",
            ClassId::Calendar => "GtkCalendar",
            ClassId::Invisible => "GtkInvisible",
        }
    }

    #[verifier::when_used_as_spec(spec_class_name)]
    pub fn class_name(self) -> (n: &'static str)
        ensures
            n == self.spec_class_name(),
    {
        match self {
            ClassId::Object => "GObject",
            ClassId::InitiallyUnowned => "GInitiallyUnowned",
            ClassId::Orientable => "GtkOrientable",
            ClassId::ToolShell => "GtkToolShell",
            ClassId::FileChooser => "GtkFileChooser",
            ClassId::AppChooser => "GtkAppChooser",
            ClassId::FontChooser => "GtkFontChooser",
            ClassId::ColorChooser => "GtkColorChooser",
            ClassId::RecentChooser => "GtkRecentChooser",
            ClassId::Editable => "GtkEditable",
            ClassId::Scrollable => "GtkScrollable",
            ClassId::Buildable => "GtkBuildable",
            ClassId::AppInfo => "GAppInfo",
            ClassId::EntryBuffer => "GtkEntryBuffer",
            ClassId::PrintSettings => "GtkPrintSettings",
            ClassId::PageSetup => "GtkPageSetup",
            ClassId::RecentManager => "GtkRecentManager",
            ClassId::Builder => "GtkBuilder",
            ClassId::AppLaunchContext => "GAppLaunchContext",
            ClassId::MenuModel => "GMenuModel",
            ClassId::Adjustment => "GtkAdjustment",
            ClassId::FileFilter => "GtkFileFilter",
            ClassId::RecentFilter => "GtkRecentFilter",
            ClassId::Widget => "GtkWidget",
            ClassId::Container => "GtkContainer",
            ClassId::Bin => "GtkBin",
            ClassId::Window => "GtkWindow",
            ClassId::Dialog => "GtkDialog",
            ClassId::AboutDialog => "GtkAboutDialog",
            ClassId::MessageDialog => "GtkMessageDialog",
            ClassId::AppChooserDialog => "GtkAppChooserDialog",
            ClassId::ColorChooserDialog => "GtkColorChooserDialog",
            ClassId::FileChooserDialog => "GtkFileChooserDialog",
            ClassId::FontChooserDialog => "GtkFontChooserDialog",
            ClassId::RecentChooserDialog => "GtkRecentChooserDialog",
            ClassId::Button => "GtkButton",
            ClassId::ToggleButton => "GtkToggleButton",
            ClassId::CheckButton => "GtkCheckButton",
            ClassId::MenuButton => "GtkMenuButton",
            ClassId::ColorButton => "GtkColorButton",
            ClassId::FontButton => "GtkFontButton",
            ClassId::LinkButton => "GtkLinkButton",
            ClassId::ScaleButton => "GtkScaleButton",
            ClassId::VolumeButton => "GtkVolumeButton",
            ClassId::ComboBox => "GtkComboBox",
            ClassId::Frame => "GtkFrame",
            ClassId::AspectFrame => "GtkAspectFrame",
            ClassId::Alignment => "GtkAlignment",
            ClassId::Expander => "GtkExpander",
            ClassId::Revealer => "GtkRevealer",
            ClassId::Overlay => "GtkOverlay",
            ClassId::SearchBar => "GtkSearchBar",
            ClassId::FlowBoxChild => "GtkFlowBoxChild",
            ClassId::ListBoxRow => "GtkListBoxRow",
            ClassId::ActionBar => "GtkActionBar",
            ClassId::ToolItem => "GtkToolItem",
            ClassId::ToolButton => "GtkToolButton",
            ClassId::MenuToolButton => "GtkMenuToolButton",
            ClassId::ToggleToolButton => "GtkToggleToolButton",
            ClassId::RadioToolButton => "GtkRadioToolButton",
            ClassId::SeparatorToolItem => "GtkSeparatorToolItem",
            ClassId::Box => "GtkBox",
            ClassId::ButtonBox => "GtkButtonBox",
            ClassId::InfoBar => "GtkInfoBar",
            ClassId::StackSwitcher => "GtkStackSwitcher",
            ClassId::Fixed => "GtkFixed",
            ClassId::Grid => "GtkGrid",
            ClassId::Paned => "GtkPaned",
            ClassId::Toolbar => "GtkToolbar",
            ClassId::Notebook => "GtkNotebook",
            ClassId::Stack => "GtkStack",
            ClassId::Layout => "GtkLayout",
            ClassId::HeaderBar => "GtkHeaderBar",
            ClassId::FlowBox => "GtkFlowBox",
            ClassId::ListBox => "GtkListBox",
            ClassId::MenuShell => "GtkMenuShell",
            ClassId::Menu => "GtkMenu",
            ClassId::Misc => "GtkMisc",
            ClassId::Label => "GtkLabel",
            ClassId::Arrow => "GtkArrow",
            ClassId::Image => "GtkImage",
            ClassId::Range => "GtkRange",
            ClassId::Scale => "GtkScale",
            ClassId::Entry => "GtkEntry",
            ClassId::SearchEntry => "GtkSearchEntry",
            ClassId::SpinButton => "GtkSpinButton",
            ClassId::Switch => "GtkSwitch",
            ClassId::LevelBar => "GtkLevelBar",
            ClassId::Spinner => "GtkSpinner",
            ClassId::ProgressBar => "GtkProgressBar",
            ClassId::Calendar => "GtkCalendar",
            ClassId::Invisible => "GtkInvisible",
        }
    }

    /// A class that the type system knows under `name`, if the lattice has
    /// one. The class of an object whose own class the lattice lacks is the
    /// nearest ancestor that this finds.
    pub fn from_class_name(name: &str) -> (r: Option<ClassId>)
        ensures
            r matches Some(c) ==> c.spec_class_name()@ == name@,
            r is None ==> forall|c: ClassId| (#[trigger] c.spec_class_name())@ != name@,
    {
        if same_text(name, "GObject") {
            return Some(ClassId::Object);
        }
        if same_text(name, "GInitiallyUnowned") {
            return Some(ClassId::InitiallyUnowned);
        }
        if same_text(name, "GtkOrientable") {
            return Some(ClassId::Orientable);
        }
        if same_text(name, "GtkToolShell") {
            return Some(ClassId::ToolShell);
        }
        if same_text(name, "GtkFileChooser") {
            return Some(ClassId::FileChooser);
        }
        if same_text(name, "GtkAppChooser") {
            return Some(ClassId::AppChooser);
        }
        if same_text(name, "GtkFontChooser") {
            return Some(ClassId::FontChooser);
        }
        if same_text(name, "GtkColorChooser") {
            return Some(ClassId::ColorChooser);
        }
        if same_text(name, "GtkRecentChooser") {
            return Some(ClassId::RecentChooser);
        }
        if same_text(name, "GtkEditable") {
            return Some(ClassId::Editable);
        }
        if same_text(name, "GtkScrollable") {
            return Some(ClassId::Scrollable);
        }
        if same_text(name, "GtkBuildable") {
            return Some(ClassId::Buildable);
        }
        if same_text(name, "GAppInfo") {
            return Some(ClassId::AppInfo);
        }
        if same_text(name, "GtkEntryBuffer") {
            return Some(ClassId::EntryBuffer);
        }
        if same_text(name, "GtkPrintSettings") {
            return Some(ClassId::PrintSettings);
        }
        if same_text(name, "GtkPageSetup") {
            return Some(ClassId::PageSetup);
        }
        if same_text(name, "GtkRecentManager") {
            return Some(ClassId::RecentManager);
        }
        if same_text(name, "GtkBuilder") {
            return Some(ClassId::Builder);
        }
        if same_text(name, "GAppLaunchContext") {
            return Some(ClassId::AppLaunchContext);
        }
        if same_text(name, "GMenuModel") {
            return Some(ClassId::MenuModel);
        }
        if same_text(name, "GtkAdjustment") {
            return Some(ClassId::Adjustment);
        }
        if same_text(name, "GtkFileFilter") {
            return Some(ClassId::FileFilter);
        }
        if same_text(name, "GtkRecentFilter") {
            return Some(ClassId::RecentFilter);
        }
        if same_text(name, "GtkWidget") {
            return Some(ClassId::Widget);
        }
        if same_text(name, "GtkContainer") {
            return Some(ClassId::Container);
        }
        if same_text(name, "GtkBin") {
            return Some(ClassId::Bin);
        }
        if same_text(name, "GtkWindow") {
            return Some(ClassId::Window);
        }
        if same_text(name, "GtkDialog") {
            return Some(ClassId::Dialog);
        }
        if same_text(name, "GtkAboutDialog") {
            return Some(ClassId::AboutDialog);
        }
        if same_text(name, "GtkMessageDialog") {
            return Some(ClassId::MessageDialog);
        }
        if same_text(name, "GtkAppChooserDialog") {
            return Some(ClassId::AppChooserDialog);
        }
        if same_text(name, "GtkColorChooserDialog") {
            return Some(ClassId::ColorChooserDialog);
        }
        if same_text(name, "GtkFileChooserDialog") {
            return Some(ClassId::FileChooserDialog);
        }
        if same_text(name, "GtkFontChooserDialog") {
            return Some(ClassId::FontChooserDialog);
        }
        if same_text(name, "GtkRecentChooserDialog") {
            return Some(ClassId::RecentChooserDialog);
        }
        if same_text(name, "GtkButton") {
            return Some(ClassId::Button);
        }
        if same_text(name, "GtkToggleButton") {
            return Some(ClassId::ToggleButton);
        }
        if same_text(name, "GtkCheckButton") {
            return Some(ClassId::CheckButton);
        }
        if same_text(name, "GtkMenuButton") {
            return Some(ClassId::MenuButton);
        }
        if same_text(name, "GtkColorButton") {
            return Some(ClassId::ColorButton);
        }
        if same_text(name, "GtkFontButton") {
            return Some(ClassId::FontButton);
        }
        if same_text(name, "GtkLinkButton") {
            return Some(ClassId::LinkButton);
        }
        if same_text(name, "GtkScaleButton") {
            return Some(ClassId::ScaleButton);
        }
        if same_text(name, "GtkVolumeButton") {
            return Some(ClassId::VolumeButton);
        }
        if same_text(name, "GtkComboBox") {
            return Some(ClassId::ComboBox);
        }
        if same_text(name, "GtkFrame") {
            return Some(ClassId::Frame);
        }
        if same_text(name, "GtkAspectFrame") {
            return Some(ClassId::AspectFrame);
        }
        if same_text(name, "GtkAlignment") {
            return Some(ClassId::Alignment);
        }
        if same_text(name, "GtkExpander") {
            return Some(ClassId::Expander);
        }
        if same_text(name, "GtkRevealer") {
            return Some(ClassId::Revealer);
        }
        if same_text(name, "GtkOverlay") {
            return Some(ClassId::Overlay);
        }
        if same_text(name, "GtkSearchBar") {
            return Some(ClassId::SearchBar);
        }
        if same_text(name, "GtkFlowBoxChild") {
            return Some(ClassId::FlowBoxChild);
        }
        if same_text(name, "GtkListBoxRow") {
            return Some(ClassId::ListBoxRow);
        }
        if same_text(name, "GtkActionBar") {
            return Some(ClassId::ActionBar);
        }
        if same_text(name, "GtkToolItem") {
            return Some(ClassId::ToolItem);
        }
        if same_text(name, "GtkToolButton") {
            return Some(ClassId::ToolButton);
        }
        if same_text(name, "GtkMenuToolButton") {
            return Some(ClassId::MenuToolButton);
        }
        if same_text(name, "GtkToggleToolButton") {
            return Some(ClassId::ToggleToolButton);
        }
        if same_text(name, "GtkRadioToolButton") {
            return Some(ClassId::RadioToolButton);
        }
        if same_text(name, "GtkSeparatorToolItem") {
            return Some(ClassId::SeparatorToolItem);
        }
        if same_text(name, "GtkBox") {
            return Some(ClassId::Box);
        }
        if same_text(name, "GtkButtonBox") {
            return Some(ClassId::ButtonBox);
        }
        if same_text(name, "GtkInfoBar") {
            return Some(ClassId::InfoBar);
        }
        if same_text(name, "GtkStackSwitcher") {
            return Some(ClassId::StackSwitcher);
        }
        if same_text(name, "GtkFixed") {
            return Some(ClassId::Fixed);
        }
        if same_text(name, "GtkGrid") {
            return Some(ClassId::Grid);
        }
        if same_text(name, "GtkPaned") {
            return Some(ClassId::Paned);
        }
        if same_text(name, "GtkToolbar") {
            return Some(ClassId::Toolbar);
        }
        if same_text(name, "GtkNotebook") {
            return Some(ClassId::Notebook);
        }
        if same_text(name, "GtkStack") {
            return Some(ClassId::Stack);
        }
        if same_text(name, "GtkLayout") {
            return Some(ClassId::Layout);
        }
        if same_text(name, "GtkHeaderBar") {
            return Some(ClassId::HeaderBar);
        }
        if same_text(name, "GtkFlowBox") {
            return Some(ClassId::FlowBox);
        }
        if same_text(name, "GtkListBox") {
            return Some(ClassId::ListBox);
        }
        if same_text(name, "GtkMenuShell") {
            return Some(ClassId::MenuShell);
        }
        if same_text(name, "GtkMenu") {
            return Some(ClassId::Menu);
        }
        if same_text(name, "GtkMisc") {
            return Some(ClassId::Misc);
        }
        if same_text(name, "GtkLabel") {
            return Some(ClassId::Label);
        }
        if same_text(name, "GtkArrow") {
            return Some(ClassId::Arrow);
        }
        if same_text(name, "GtkImage") {
            return Some(ClassId::Image);
        }
        if same_text(name, "GtkRange") {
            return Some(ClassId::Range);
        }
        if same_text(name, "GtkScale") {
            return Some(ClassId::Scale);
        }
        if same_text(name, "GtkEntry") {
            return Some(ClassId::Entry);
        }
        if same_text(name, "GtkSearchEntry") {
            return Some(ClassId::SearchEntry);
        }
        if same_text(name, "GtkSpinButton") {
            return Some(ClassId::SpinButton);
        }
        if same_text(name, "GtkSwitch") {
            return Some(ClassId::Switch);
        }
        if same_text(name, "GtkLevelBar") {
            return Some(ClassId::LevelBar);
        }
        if same_text(name, "GtkSpinner") {
            return Some(ClassId::Spinner);
        }
        if same_text(name, "GtkProgressBar") {
            return Some(ClassId::ProgressBar);
        }
        if same_text(name, "GtkCalendar") {
            return Some(ClassId::Calendar);
        }
        if same_text(name, "GtkInvisible") {
            return Some(ClassId::Invisible);
        }
        None
    }
}

/// Whether two texts are the same.
fn same_text(a: &str, b: &str) -> (r: bool)
    ensures
        r == (a@ == b@),
{
    let same = crate::glib::translate::bytes_eq(a.as_bytes(), b.as_bytes());
    proof {
        if same {
            vstd::utf8::encode_utf8_decode_utf8(a@);
            vstd::utf8::encode_utf8_decode_utf8(b@);
        }
    }
    same
}

/// The subclass relation: `sub` is `sup`, implements `sup`, or derives from
/// a class that is related to `sup`.
pub open spec fn is_a(sub: ClassId, sup: ClassId) -> bool
    decreases sub.rank(),
{
    sub == sup || sub.spec_implements(sup) || match sub.spec_parent() {
        Some(p) => is_a(p, sup),
        None => false,
    }
}

/// Decides the subclass relation by walking from `sub` towards the root.
pub fn type_is_a(sub: ClassId, sup: ClassId) -> (r: bool)
    ensures
        r == is_a(sub, sup),
{
    let mut current = sub;
    loop
        invariant
            is_a(sub, sup) == is_a(current, sup),
        decreases current.rank(),
    {
        if current == sup || current.implements(sup) {
            return true;
        }
        match current.parent() {
            Some(p) => {
                current = p;
            },
            None => {
                return false;
            },
        }
    }
}

/// Every class is related to itself.
pub proof fn lemma_is_a_reflexive(c: ClassId)
    ensures
        is_a(c, c),
{
}

/// Every class and every interface descends from the root.
pub proof fn lemma_is_a_rooted(c: ClassId)
    ensures
        is_a(c, ClassId::Object),
    decreases c.rank(),
{
    match c.spec_parent() {
        Some(p) => lemma_is_a_rooted(p),
        None => {},
    }
}

/// Nothing but the root itself is above the root.
pub proof fn lemma_root_is_top(c: ClassId)
    requires
        is_a(ClassId::Object, c),
    ensures
        c == ClassId::Object,
{
}

/// An interface is related only to itself and to the root.
pub proof fn lemma_interface_supers(i: ClassId, c: ClassId)
    requires
        i.spec_is_interface(),
        is_a(i, c),
    ensures
        c == i || c == ClassId::Object,
{
    reveal_with_fuel(is_a, 2);
}

/// Walking an edge of the lattice strictly lowers the rank.
pub proof fn lemma_is_a_rank(sub: ClassId, sup: ClassId)
    requires
        is_a(sub, sup),
        sub != sup,
    ensures
        sup.rank() < sub.rank(),
    decreases sub.rank(),
{
    if !sub.spec_implements(sup) {
        let p = sub.spec_parent().unwrap();
        if p != sup {
            lemma_is_a_rank(p, sup);
        }
    }
}

/// The lattice has no cycle: two classes related both ways are the same.
pub proof fn lemma_is_a_antisymmetric(a: ClassId, b: ClassId)
    requires
        is_a(a, b),
        is_a(b, a),
    ensures
        a == b,
{
    if a != b {
        lemma_is_a_rank(a, b);
        lemma_is_a_rank(b, a);
    }
}

/// The relation is transitive: an ancestor's ancestor is an ancestor.
pub proof fn lemma_is_a_transitive(a: ClassId, b: ClassId, c: ClassId)
    requires
        is_a(a, b),
        is_a(b, c),
    ensures
        is_a(a, c),
    decreases a.rank(),
{
    if a == b {
    } else if a.spec_implements(b) {
        lemma_interface_supers(b, c);
        lemma_is_a_rooted(a);
    } else {
        lemma_is_a_transitive(a.spec_parent().unwrap(), b, c);
    }
}

} // verus!
