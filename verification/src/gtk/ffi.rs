//! The type tags of the toolkit's classes and interfaces. A tag has no
//! value of interest: it names the class that an address is viewed as.

use crate::glib::traits::{GetGType, Ptr};
use crate::glib::types::ClassId;
use vstd::prelude::*;

pub use crate::glib::{to_bool, to_gboolean, Gboolean};

verus! {

/// The tag of the interface `GtkOrientable`.
#[derive(Debug)]
pub struct C_GtkOrientable;

impl GetGType for C_GtkOrientable {
    open spec fn class() -> ClassId {
        ClassId::Orientable
    }

    fn get_gtype() -> ClassId {
        ClassId::Orientable
    }
}

/// The tag of the interface `GtkToolShell`.
#[derive(Debug)]
pub struct C_GtkToolShell;

impl GetGType for C_GtkToolShell {
    open spec fn class() -> ClassId {
        ClassId::ToolShell
    }

    fn get_gtype() -> ClassId {
        ClassId::ToolShell
    }
}

/// The tag of the interface `GtkFileChooser`.
#[derive(Debug)]
pub struct C_GtkFileChooser;

impl GetGType for C_GtkFileChooser {
    open spec fn class() -> ClassId {
        ClassId::FileChooser
    }

    fn get_gtype() -> ClassId {
        ClassId::FileChooser
    }
}

/// The tag of the interface `GtkAppChooser`.
#[derive(Debug)]
pub struct C_GtkAppChooser;

impl GetGType for C_GtkAppChooser {
    open spec fn class() -> ClassId {
        ClassId::AppChooser
    }

    fn get_gtype() -> ClassId {
        ClassId::AppChooser
    }
}

/// The tag of the interface `GtkFontChooser`.
#[derive(Debug)]
pub struct C_GtkFontChooser;

impl GetGType for C_GtkFontChooser {
    open spec fn class() -> ClassId {
        ClassId::FontChooser
    }

    fn get_gtype() -> ClassId {
        ClassId::FontChooser
    }
}

/// The tag of the interface `GtkColorChooser`.
#[derive(Debug)]
pub struct C_GtkColorChooser;

impl GetGType for C_GtkColorChooser {
    open spec fn class() -> ClassId {
        ClassId::ColorChooser
    }

    fn get_gtype() -> ClassId {
        ClassId::ColorChooser
    }
}

/// The tag of the interface `GtkRecentChooser`.
#[derive(Debug)]
pub struct C_GtkRecentChooser;

impl GetGType for C_GtkRecentChooser {
    open spec fn class() -> ClassId {
        ClassId::RecentChooser
    }

    fn get_gtype() -> ClassId {
        ClassId::RecentChooser
    }
}

/// The tag of the interface `GtkEditable`.
#[derive(Debug)]
pub struct C_GtkEditable;

impl GetGType for C_GtkEditable {
    open spec fn class() -> ClassId {
        ClassId::Editable
    }

    fn get_gtype() -> ClassId {
        ClassId::Editable
    }
}

/// The tag of the interface `GtkScrollable`.
#[derive(Debug)]
pub struct C_GtkScrollable;

impl GetGType for C_GtkScrollable {
    open spec fn class() -> ClassId {
        ClassId::Scrollable
    }

    fn get_gtype() -> ClassId {
        ClassId::Scrollable
    }
}

/// The tag of the interface `GtkBuildable`.
#[derive(Debug)]
pub struct C_GtkBuildable;

impl GetGType for C_GtkBuildable {
    open spec fn class() -> ClassId {
        ClassId::Buildable
    }

    fn get_gtype() -> ClassId {
        ClassId::Buildable
    }
}

/// The tag of the interface `GAppInfo`.
#[derive(Debug)]
pub struct C_GAppInfo;

impl GetGType for C_GAppInfo {
    open spec fn class() -> ClassId {
        ClassId::AppInfo
    }

    fn get_gtype() -> ClassId {
        ClassId::AppInfo
    }
}

/// The tag of the class `GtkEntryBuffer`.
#[derive(Debug)]
pub struct C_GtkEntryBuffer;

impl GetGType for C_GtkEntryBuffer {
    open spec fn class() -> ClassId {
        ClassId::EntryBuffer
    }

    fn get_gtype() -> ClassId {
        ClassId::EntryBuffer
    }
}

/// The tag of the class `GtkPrintSettings`.
#[derive(Debug)]
pub struct C_GtkPrintSettings;

impl GetGType for C_GtkPrintSettings {
    open spec fn class() -> ClassId {
        ClassId::PrintSettings
    }

    fn get_gtype() -> ClassId {
        ClassId::PrintSettings
    }
}

/// The tag of the class `GtkPageSetup`.
#[derive(Debug)]
pub struct C_GtkPageSetup;

impl GetGType for C_GtkPageSetup {
    open spec fn class() -> ClassId {
        ClassId::PageSetup
    }

    fn get_gtype() -> ClassId {
        ClassId::PageSetup
    }
}

/// The tag of the class `GtkRecentManager`.
#[derive(Debug)]
pub struct C_GtkRecentManager;

impl GetGType for C_GtkRecentManager {
    open spec fn class() -> ClassId {
        ClassId::RecentManager
    }

    fn get_gtype() -> ClassId {
        ClassId::RecentManager
    }
}

/// The tag of the class `GtkBuilder`.
#[derive(Debug)]
pub struct C_GtkBuilder;

impl GetGType for C_GtkBuilder {
    open spec fn class() -> ClassId {
        ClassId::Builder
    }

    fn get_gtype() -> ClassId {
        ClassId::Builder
    }
}

/// The tag of the class `GAppLaunchContext`.
#[derive(Debug)]
pub struct C_GAppLaunchContext;

impl GetGType for C_GAppLaunchContext {
    open spec fn class() -> ClassId {
        ClassId::AppLaunchContext
    }

    fn get_gtype() -> ClassId {
        ClassId::AppLaunchContext
    }
}

/// The tag of the class `GMenuModel`.
#[derive(Debug)]
pub struct C_GMenuModel;

impl GetGType for C_GMenuModel {
    open spec fn class() -> ClassId {
        ClassId::MenuModel
    }

    fn get_gtype() -> ClassId {
        ClassId::MenuModel
    }
}

/// The tag of the class `GtkAdjustment`.
#[derive(Debug)]
pub struct C_GtkAdjustment;

impl GetGType for C_GtkAdjustment {
    open spec fn class() -> ClassId {
        ClassId::Adjustment
    }

    fn get_gtype() -> ClassId {
        ClassId::Adjustment
    }
}

/// The tag of the class `GtkFileFilter`.
#[derive(Debug)]
pub struct C_GtkFileFilter;

impl GetGType for C_GtkFileFilter {
    open spec fn class() -> ClassId {
        ClassId::FileFilter
    }

    fn get_gtype() -> ClassId {
        ClassId::FileFilter
    }
}

/// The tag of the class `GtkRecentFilter`.
#[derive(Debug)]
pub struct C_GtkRecentFilter;

impl GetGType for C_GtkRecentFilter {
    open spec fn class() -> ClassId {
        ClassId::RecentFilter
    }

    fn get_gtype() -> ClassId {
        ClassId::RecentFilter
    }
}

/// The tag of the class `GtkWidget`.
#[derive(Debug)]
pub struct C_GtkWidget;

impl GetGType for C_GtkWidget {
    open spec fn class() -> ClassId {
        ClassId::Widget
    }

    fn get_gtype() -> ClassId {
        ClassId::Widget
    }
}

/// The tag of the class `GtkContainer`.
#[derive(Debug)]
pub struct C_GtkContainer;

impl GetGType for C_GtkContainer {
    open spec fn class() -> ClassId {
        ClassId::Container
    }

    fn get_gtype() -> ClassId {
        ClassId::Container
    }
}

/// The tag of the class `GtkBin`.
#[derive(Debug)]
pub struct C_GtkBin;

impl GetGType for C_GtkBin {
    open spec fn class() -> ClassId {
        ClassId::Bin
    }

    fn get_gtype() -> ClassId {
        ClassId::Bin
    }
}

/// The tag of the class `GtkWindow`.
#[derive(Debug)]
pub struct C_GtkWindow;

impl GetGType for C_GtkWindow {
    open spec fn class() -> ClassId {
        ClassId::Window
    }

    fn get_gtype() -> ClassId {
        ClassId::Window
    }
}

/// The tag of the class `GtkDialog`.
#[derive(Debug)]
pub struct C_GtkDialog;

impl GetGType for C_GtkDialog {
    open spec fn class() -> ClassId {
        ClassId::Dialog
    }

    fn get_gtype() -> ClassId {
        ClassId::Dialog
    }
}

/// The tag of the class `GtkAboutDialog`.
#[derive(Debug)]
pub struct C_GtkAboutDialog;

impl GetGType for C_GtkAboutDialog {
    open spec fn class() -> ClassId {
        ClassId::AboutDialog
    }

    fn get_gtype() -> ClassId {
        ClassId::AboutDialog
    }
}

/// The tag of the class `GtkMessageDialog`.
#[derive(Debug)]
pub struct C_GtkMessageDialog;

impl GetGType for C_GtkMessageDialog {
    open spec fn class() -> ClassId {
        ClassId::MessageDialog
    }

    fn get_gtype() -> ClassId {
        ClassId::MessageDialog
    }
}

/// The tag of the class `GtkAppChooserDialog`.
#[derive(Debug)]
pub struct C_GtkAppChooserDialog;

impl GetGType for C_GtkAppChooserDialog {
    open spec fn class() -> ClassId {
        ClassId::AppChooserDialog
    }

    fn get_gtype() -> ClassId {
        ClassId::AppChooserDialog
    }
}

/// The tag of the class `GtkColorChooserDialog`.
#[derive(Debug)]
pub struct C_GtkColorChooserDialog;

impl GetGType for C_GtkColorChooserDialog {
    open spec fn class() -> ClassId {
        ClassId::ColorChooserDialog
    }

    fn get_gtype() -> ClassId {
        ClassId::ColorChooserDialog
    }
}

/// The tag of the class `GtkFileChooserDialog`.
#[derive(Debug)]
pub struct C_GtkFileChooserDialog;

impl GetGType for C_GtkFileChooserDialog {
    open spec fn class() -> ClassId {
        ClassId::FileChooserDialog
    }

    fn get_gtype() -> ClassId {
        ClassId::FileChooserDialog
    }
}

/// The tag of the class `GtkFontChooserDialog`.
#[derive(Debug)]
pub struct C_GtkFontChooserDialog;

impl GetGType for C_GtkFontChooserDialog {
    open spec fn class() -> ClassId {
        ClassId::FontChooserDialog
    }

    fn get_gtype() -> ClassId {
        ClassId::FontChooserDialog
    }
}

/// The tag of the class `GtkRecentChooserDialog`.
#[derive(Debug)]
pub struct C_GtkRecentChooserDialog;

impl GetGType for C_GtkRecentChooserDialog {
    open spec fn class() -> ClassId {
        ClassId::RecentChooserDialog
    }

    fn get_gtype() -> ClassId {
        ClassId::RecentChooserDialog
    }
}

/// The tag of the class `GtkButton`.
#[derive(Debug)]
pub struct C_GtkButton;

impl GetGType for C_GtkButton {
    open spec fn class() -> ClassId {
        ClassId::Button
    }

    fn get_gtype() -> ClassId {
        ClassId::Button
    }
}

/// The tag of the class `GtkToggleButton`.
#[derive(Debug)]
pub struct C_GtkToggleButton;

impl GetGType for C_GtkToggleButton {
    open spec fn class() -> ClassId {
        ClassId::ToggleButton
    }

    fn get_gtype() -> ClassId {
        ClassId::ToggleButton
    }
}

/// The tag of the class `GtkCheckButton`.
#[derive(Debug)]
pub struct C_GtkCheckButton;

impl GetGType for C_GtkCheckButton {
    open spec fn class() -> ClassId {
        ClassId::CheckButton
    }

    fn get_gtype() -> ClassId {
        ClassId::CheckButton
    }
}

/// The tag of the class `GtkMenuButton`.
#[derive(Debug)]
pub struct C_GtkMenuButton;

impl GetGType for C_GtkMenuButton {
    open spec fn class() -> ClassId {
        ClassId::MenuButton
    }

    fn get_gtype() -> ClassId {
        ClassId::MenuButton
    }
}

/// The tag of the class `GtkColorButton`.
#[derive(Debug)]
pub struct C_GtkColorButton;

impl GetGType for C_GtkColorButton {
    open spec fn class() -> ClassId {
        ClassId::ColorButton
    }

    fn get_gtype() -> ClassId {
        ClassId::ColorButton
    }
}

/// The tag of the class `GtkFontButton`.
#[derive(Debug)]
pub struct C_GtkFontButton;

impl GetGType for C_GtkFontButton {
    open spec fn class() -> ClassId {
        ClassId::FontButton
    }

    fn get_gtype() -> ClassId {
        ClassId::FontButton
    }
}

/// The tag of the class `GtkLinkButton`.
#[derive(Debug)]
pub struct C_GtkLinkButton;

impl GetGType for C_GtkLinkButton {
    open spec fn class() -> ClassId {
        ClassId::LinkButton
    }

    fn get_gtype() -> ClassId {
        ClassId::LinkButton
    }
}

/// The tag of the class `GtkScaleButton`.
#[derive(Debug)]
pub struct C_GtkScaleButton;

impl GetGType for C_GtkScaleButton {
    open spec fn class() -> ClassId {
        ClassId::ScaleButton
    }

    fn get_gtype() -> ClassId {
        ClassId::ScaleButton
    }
}

/// The tag of the class `GtkVolumeButton`.
#[derive(Debug)]
pub struct C_GtkVolumeButton;

impl GetGType for C_GtkVolumeButton {
    open spec fn class() -> ClassId {
        ClassId::VolumeButton
    }

    fn get_gtype() -> ClassId {
        ClassId::VolumeButton
    }
}

/// The tag of the class `GtkComboBox`.
#[derive(Debug)]
pub struct C_GtkComboBox;

impl GetGType for C_GtkComboBox {
    open spec fn class() -> ClassId {
        ClassId::ComboBox
    }

    fn get_gtype() -> ClassId {
        ClassId::ComboBox
    }
}

/// The tag of the class `GtkFrame`.
#[derive(Debug)]
pub struct C_GtkFrame;

impl GetGType for C_GtkFrame {
    open spec fn class() -> ClassId {
        ClassId::Frame
    }

    fn get_gtype() -> ClassId {
        ClassId::Frame
    }
}

/// The tag of the class `GtkAspectFrame`.
#[derive(Debug)]
pub struct C_GtkAspectFrame;

impl GetGType for C_GtkAspectFrame {
    open spec fn class() -> ClassId {
        ClassId::AspectFrame
    }

    fn get_gtype() -> ClassId {
        ClassId::AspectFrame
    }
}

/// The tag of the class `GtkAlignment`.
#[derive(Debug)]
pub struct C_GtkAlignment;

impl GetGType for C_GtkAlignment {
    open spec fn class() -> ClassId {
        ClassId::Alignment
    }

    fn get_gtype() -> ClassId {
        ClassId::Alignment
    }
}

/// The tag of the class `GtkExpander`.
#[derive(Debug)]
pub struct C_GtkExpander;

impl GetGType for C_GtkExpander {
    open spec fn class() -> ClassId {
        ClassId::Expander
    }

    fn get_gtype() -> ClassId {
        ClassId::Expander
    }
}

/// The tag of the class `GtkRevealer`.
#[derive(Debug)]
pub struct C_GtkRevealer;

impl GetGType for C_GtkRevealer {
    open spec fn class() -> ClassId {
        ClassId::Revealer
    }

    fn get_gtype() -> ClassId {
        ClassId::Revealer
    }
}

/// The tag of the class `GtkOverlay`.
#[derive(Debug)]
pub struct C_GtkOverlay;

impl GetGType for C_GtkOverlay {
    open spec fn class() -> ClassId {
        ClassId::Overlay
    }

    fn get_gtype() -> ClassId {
        ClassId::Overlay
    }
}

/// The tag of the class `GtkSearchBar`.
#[derive(Debug)]
pub struct C_GtkSearchBar;

impl GetGType for C_GtkSearchBar {
    open spec fn class() -> ClassId {
        ClassId::SearchBar
    }

    fn get_gtype() -> ClassId {
        ClassId::SearchBar
    }
}

/// The tag of the class `GtkFlowBoxChild`.
#[derive(Debug)]
pub struct C_GtkFlowBoxChild;

impl GetGType for C_GtkFlowBoxChild {
    open spec fn class() -> ClassId {
        ClassId::FlowBoxChild
    }

    fn get_gtype() -> ClassId {
        ClassId::FlowBoxChild
    }
}

/// The tag of the class `GtkListBoxRow`.
#[derive(Debug)]
pub struct C_GtkListBoxRow;

impl GetGType for C_GtkListBoxRow {
    open spec fn class() -> ClassId {
        ClassId::ListBoxRow
    }

    fn get_gtype() -> ClassId {
        ClassId::ListBoxRow
    }
}

/// The tag of the class `GtkActionBar`.
#[derive(Debug)]
pub struct C_GtkActionBar;

impl GetGType for C_GtkActionBar {
    open spec fn class() -> ClassId {
        ClassId::ActionBar
    }

    fn get_gtype() -> ClassId {
        ClassId::ActionBar
    }
}

/// The tag of the class `GtkToolItem`.
#[derive(Debug)]
pub struct C_GtkToolItem;

impl GetGType for C_GtkToolItem {
    open spec fn class() -> ClassId {
        ClassId::ToolItem
    }

    fn get_gtype() -> ClassId {
        ClassId::ToolItem
    }
}

/// The tag of the class `GtkToolButton`.
#[derive(Debug)]
pub struct C_GtkToolButton;

impl GetGType for C_GtkToolButton {
    open spec fn class() -> ClassId {
        ClassId::ToolButton
    }

    fn get_gtype() -> ClassId {
        ClassId::ToolButton
    }
}

/// The tag of the class `GtkMenuToolButton`.
#[derive(Debug)]
pub struct C_GtkMenuToolButton;

impl GetGType for C_GtkMenuToolButton {
    open spec fn class() -> ClassId {
        ClassId::MenuToolButton
    }

    fn get_gtype() -> ClassId {
        ClassId::MenuToolButton
    }
}

/// The tag of the class `GtkToggleToolButton`.
#[derive(Debug)]
pub struct C_GtkToggleToolButton;

impl GetGType for C_GtkToggleToolButton {
    open spec fn class() -> ClassId {
        ClassId::ToggleToolButton
    }

    fn get_gtype() -> ClassId {
        ClassId::ToggleToolButton
    }
}

/// The tag of the class `GtkRadioToolButton`.
#[derive(Debug)]
pub struct C_GtkRadioToolButton;

impl GetGType for C_GtkRadioToolButton {
    open spec fn class() -> ClassId {
        ClassId::RadioToolButton
    }

    fn get_gtype() -> ClassId {
        ClassId::RadioToolButton
    }
}

/// The tag of the class `GtkSeparatorToolItem`.
#[derive(Debug)]
pub struct C_GtkSeparatorToolItem;

impl GetGType for C_GtkSeparatorToolItem {
    open spec fn class() -> ClassId {
        ClassId::SeparatorToolItem
    }

    fn get_gtype() -> ClassId {
        ClassId::SeparatorToolItem
    }
}

/// The tag of the class `GtkBox`.
#[derive(Debug)]
pub struct C_GtkBox;

impl GetGType for C_GtkBox {
    open spec fn class() -> ClassId {
        ClassId::Box
    }

    fn get_gtype() -> ClassId {
        ClassId::Box
    }
}

/// The tag of the class `GtkButtonBox`.
#[derive(Debug)]
pub struct C_GtkButtonBox;

impl GetGType for C_GtkButtonBox {
    open spec fn class() -> ClassId {
        ClassId::ButtonBox
    }

    fn get_gtype() -> ClassId {
        ClassId::ButtonBox
    }
}

/// The tag of the class `GtkInfoBar`.
#[derive(Debug)]
pub struct C_GtkInfoBar;

impl GetGType for C_GtkInfoBar {
    open spec fn class() -> ClassId {
        ClassId::InfoBar
    }

    fn get_gtype() -> ClassId {
        ClassId::InfoBar
    }
}

/// The tag of the class `GtkStackSwitcher`.
#[derive(Debug)]
pub struct C_GtkStackSwitcher;

impl GetGType for C_GtkStackSwitcher {
    open spec fn class() -> ClassId {
        ClassId::StackSwitcher
    }

    fn get_gtype() -> ClassId {
        ClassId::StackSwitcher
    }
}

/// The tag of the class `GtkFixed`.
#[derive(Debug)]
pub struct C_GtkFixed;

impl GetGType for C_GtkFixed {
    open spec fn class() -> ClassId {
        ClassId::Fixed
    }

    fn get_gtype() -> ClassId {
        ClassId::Fixed
    }
}

/// The tag of the class `GtkGrid`.
#[derive(Debug)]
pub struct C_GtkGrid;

impl GetGType for C_GtkGrid {
    open spec fn class() -> ClassId {
        ClassId::Grid
    }

    fn get_gtype() -> ClassId {
        ClassId::Grid
    }
}

/// The tag of the class `GtkPaned`.
#[derive(Debug)]
pub struct C_GtkPaned;

impl GetGType for C_GtkPaned {
    open spec fn class() -> ClassId {
        ClassId::Paned
    }

    fn get_gtype() -> ClassId {
        ClassId::Paned
    }
}

/// The tag of the class `GtkToolbar`.
#[derive(Debug)]
pub struct C_GtkToolbar;

impl GetGType for C_GtkToolbar {
    open spec fn class() -> ClassId {
        ClassId::Toolbar
    }

    fn get_gtype() -> ClassId {
        ClassId::Toolbar
    }
}

/// The tag of the class `GtkNotebook`.
#[derive(Debug)]
pub struct C_GtkNotebook;

impl GetGType for C_GtkNotebook {
    open spec fn class() -> ClassId {
        ClassId::Notebook
    }

    fn get_gtype() -> ClassId {
        ClassId::Notebook
    }
}

/// The tag of the class `GtkStack`.
#[derive(Debug)]
pub struct C_GtkStack;

impl GetGType for C_GtkStack {
    open spec fn class() -> ClassId {
        ClassId::Stack
    }

    fn get_gtype() -> ClassId {
        ClassId::Stack
    }
}

/// The tag of the class `GtkLayout`.
#[derive(Debug)]
pub struct C_GtkLayout;

impl GetGType for C_GtkLayout {
    open spec fn class() -> ClassId {
        ClassId::Layout
    }

    fn get_gtype() -> ClassId {
        ClassId::Layout
    }
}

/// The tag of the class `GtkHeaderBar`.
#[derive(Debug)]
pub struct C_GtkHeaderBar;

impl GetGType for C_GtkHeaderBar {
    open spec fn class() -> ClassId {
        ClassId::HeaderBar
    }

    fn get_gtype() -> ClassId {
        ClassId::HeaderBar
    }
}

/// The tag of the class `GtkFlowBox`.
#[derive(Debug)]
pub struct C_GtkFlowBox;

impl GetGType for C_GtkFlowBox {
    open spec fn class() -> ClassId {
        ClassId::FlowBox
    }

    fn get_gtype() -> ClassId {
        ClassId::FlowBox
    }
}

/// The tag of the class `GtkListBox`.
#[derive(Debug)]
pub struct C_GtkListBox;

impl GetGType for C_GtkListBox {
    open spec fn class() -> ClassId {
        ClassId::ListBox
    }

    fn get_gtype() -> ClassId {
        ClassId::ListBox
    }
}

/// The tag of the class `GtkMenu`.
#[derive(Debug)]
pub struct C_GtkMenu;

impl GetGType for C_GtkMenu {
    open spec fn class() -> ClassId {
        ClassId::Menu
    }

    fn get_gtype() -> ClassId {
        ClassId::Menu
    }
}

/// The tag of the class `GtkMisc`.
#[derive(Debug)]
pub struct C_GtkMisc;

impl GetGType for C_GtkMisc {
    open spec fn class() -> ClassId {
        ClassId::Misc
    }

    fn get_gtype() -> ClassId {
        ClassId::Misc
    }
}

/// The tag of the class `GtkLabel`.
#[derive(Debug)]
pub struct C_GtkLabel;

impl GetGType for C_GtkLabel {
    open spec fn class() -> ClassId {
        ClassId::Label
    }

    fn get_gtype() -> ClassId {
        ClassId::Label
    }
}

/// The tag of the class `GtkArrow`.
#[derive(Debug)]
pub struct C_GtkArrow;

impl GetGType for C_GtkArrow {
    open spec fn class() -> ClassId {
        ClassId::Arrow
    }

    fn get_gtype() -> ClassId {
        ClassId::Arrow
    }
}

/// The tag of the class `GtkImage`.
#[derive(Debug)]
pub struct C_GtkImage;

impl GetGType for C_GtkImage {
    open spec fn class() -> ClassId {
        ClassId::Image
    }

    fn get_gtype() -> ClassId {
        ClassId::Image
    }
}

/// The tag of the class `GtkRange`.
#[derive(Debug)]
pub struct C_GtkRange;

impl GetGType for C_GtkRange {
    open spec fn class() -> ClassId {
        ClassId::Range
    }

    fn get_gtype() -> ClassId {
        ClassId::Range
    }
}

/// The tag of the class `GtkScale`.
#[derive(Debug)]
pub struct C_GtkScale;

impl GetGType for C_GtkScale {
    open spec fn class() -> ClassId {
        ClassId::Scale
    }

    fn get_gtype() -> ClassId {
        ClassId::Scale
    }
}

/// The tag of the class `GtkEntry`.
#[derive(Debug)]
pub struct C_GtkEntry;

impl GetGType for C_GtkEntry {
    open spec fn class() -> ClassId {
        ClassId::Entry
    }

    fn get_gtype() -> ClassId {
        ClassId::Entry
    }
}

/// The tag of the class `GtkSearchEntry`.
#[derive(Debug)]
pub struct C_GtkSearchEntry;

impl GetGType for C_GtkSearchEntry {
    open spec fn class() -> ClassId {
        ClassId::SearchEntry
    }

    fn get_gtype() -> ClassId {
        ClassId::SearchEntry
    }
}

/// The tag of the class `GtkSpinButton`.
#[derive(Debug)]
pub struct C_GtkSpinButton;

impl GetGType for C_GtkSpinButton {
    open spec fn class() -> ClassId {
        ClassId::SpinButton
    }

    fn get_gtype() -> ClassId {
        ClassId::SpinButton
    }
}

/// The tag of the class `GtkSwitch`.
#[derive(Debug)]
pub struct C_GtkSwitch;

impl GetGType for C_GtkSwitch {
    open spec fn class() -> ClassId {
        ClassId::Switch
    }

    fn get_gtype() -> ClassId {
        ClassId::Switch
    }
}

/// The tag of the class `GtkLevelBar`.
#[derive(Debug)]
pub struct C_GtkLevelBar;

impl GetGType for C_GtkLevelBar {
    open spec fn class() -> ClassId {
        ClassId::LevelBar
    }

    fn get_gtype() -> ClassId {
        ClassId::LevelBar
    }
}

/// The tag of the class `GtkSpinner`.
#[derive(Debug)]
pub struct C_GtkSpinner;

impl GetGType for C_GtkSpinner {
    open spec fn class() -> ClassId {
        ClassId::Spinner
    }

    fn get_gtype() -> ClassId {
        ClassId::Spinner
    }
}

/// The tag of the class `GtkProgressBar`.
#[derive(Debug)]
pub struct C_GtkProgressBar;

impl GetGType for C_GtkProgressBar {
    open spec fn class() -> ClassId {
        ClassId::ProgressBar
    }

    fn get_gtype() -> ClassId {
        ClassId::ProgressBar
    }
}

/// The tag of the class `GtkCalendar`.
#[derive(Debug)]
pub struct C_GtkCalendar;

impl GetGType for C_GtkCalendar {
    open spec fn class() -> ClassId {
        ClassId::Calendar
    }

    fn get_gtype() -> ClassId {
        ClassId::Calendar
    }
}

/// The tag of the class `GtkInvisible`.
#[derive(Debug)]
pub struct C_GtkInvisible;

impl GetGType for C_GtkInvisible {
    open spec fn class() -> ClassId {
        ClassId::Invisible
    }

    fn get_gtype() -> ClassId {
        ClassId::Invisible
    }
}

/// A paper size, a boxed record.
#[derive(Debug)]
pub struct C_GtkPaperSize;

/// Information on a recently used resource, a boxed record.
#[derive(Debug)]
pub struct C_GtkRecentInfo;

/// A callback closure, a boxed record.
#[derive(Debug)]
pub struct C_GClosure;

/// A position in a text buffer, an object outside the widget tree.
#[derive(Debug)]
pub struct C_GtkTextMark;

/// The interface of tree-shaped data.
#[derive(Debug)]
pub struct C_GtkTreeModel;

/// A handle on a widget as the types that hold their own address have it:
/// the address of the widget, which may be read and wrapped again.
pub trait FFIWidget: Sized {
    spec fn widget_addr(&self) -> usize;

    fn get_widget(&self) -> (p: Ptr<C_GtkWidget>)
        ensures
            p.addr == self.widget_addr(),
    ;

    /// A handle on the widget at `widget` that owns no reference.
    fn wrap(widget: Ptr<C_GtkWidget>) -> (r: Self)
        ensures
            r.widget_addr() == widget.addr,
    ;
}

} // verus!
