//! The edges of the class lattice at compile time: for each class, the
//! classes and interfaces above it.

use crate::glib::traits::{C_GObject, IsA};
use crate::glib::types::is_a;
use crate::gtk::ffi::{
    C_GAppInfo, C_GAppLaunchContext, C_GMenuModel, C_GtkAboutDialog, C_GtkActionBar,
    C_GtkAdjustment, C_GtkAlignment, C_GtkAppChooser, C_GtkAppChooserDialog, C_GtkArrow,
    C_GtkAspectFrame, C_GtkBin, C_GtkBox, C_GtkBuildable, C_GtkBuilder, C_GtkButton,
    C_GtkButtonBox, C_GtkCalendar, C_GtkCheckButton, C_GtkColorButton, C_GtkColorChooser,
    C_GtkColorChooserDialog, C_GtkComboBox, C_GtkContainer, C_GtkDialog, C_GtkEditable,
    C_GtkEntry, C_GtkEntryBuffer, C_GtkExpander, C_GtkFileChooser, C_GtkFileChooserDialog,
    C_GtkFileFilter, C_GtkFixed, C_GtkFlowBox, C_GtkFlowBoxChild, C_GtkFontButton,
    C_GtkFontChooser, C_GtkFontChooserDialog, C_GtkFrame, C_GtkGrid, C_GtkHeaderBar, C_GtkImage,
    C_GtkInfoBar, C_GtkInvisible, C_GtkLabel, C_GtkLayout, C_GtkLevelBar, C_GtkLinkButton,
    C_GtkListBox, C_GtkListBoxRow, C_GtkMenu, C_GtkMenuButton, C_GtkMenuToolButton,
    C_GtkMessageDialog, C_GtkMisc, C_GtkNotebook, C_GtkOrientable, C_GtkOverlay, C_GtkPageSetup,
    C_GtkPaned, C_GtkPrintSettings, C_GtkProgressBar, C_GtkRadioToolButton, C_GtkRange,
    C_GtkRecentChooser, C_GtkRecentChooserDialog, C_GtkRecentFilter, C_GtkRecentManager,
    C_GtkRevealer, C_GtkScale, C_GtkScaleButton, C_GtkScrollable, C_GtkSearchBar,
    C_GtkSearchEntry, C_GtkSeparatorToolItem, C_GtkSpinButton, C_GtkSpinner, C_GtkStack,
    C_GtkStackSwitcher, C_GtkSwitch, C_GtkToggleButton, C_GtkToggleToolButton, C_GtkToolButton,
    C_GtkToolItem, C_GtkToolShell, C_GtkToolbar, C_GtkVolumeButton, C_GtkWidget, C_GtkWindow,
};
use vstd::prelude::*;

verus! {

impl IsA<C_GObject> for C_GtkOrientable {
    proof fn related() {
        reveal_with_fuel(is_a, 10);
    }
}

impl IsA<C_GObject> for C_GtkToolShell {
    proof fn related() {
        reveal_with_fuel(is_a, 10);
    }
}

impl IsA<C_GObject> for C_GtkFileChooser {
    proof fn related() {
        reveal_with_fuel(is_a, 10);
    }
}

impl IsA<C_GObject> for C_GtkAppChooser {
    proof fn related() {
        reveal_with_fuel(is_a, 10);
    }
}

impl IsA<C_GObject> for C_GtkFontChooser {
    proof fn related() {
        reveal_with_fuel(is_a, 10);
    }
}

impl IsA<C_GObject> for C_GtkColorChooser {
    proof fn related() {
        reveal_with_fuel(is_a, 10);
    }
}

impl IsA<C_GObject> for C_GtkRecentChooser {
    proof fn related() {
        reveal_with_fuel(is_a, 10);
    }
}

impl IsA<C_GObject> for C_GtkEditable {
    proof fn related() {
        reveal_with_fuel(is_a, 10);
    }
}

impl IsA<C_GObject> for C_GtkScrollable {
    proof fn related() {
        reveal_with_fuel(is_a, 10);
    }
}

impl IsA<C_GObject> for C_GtkBuildable {
    proof fn related() {
        reveal_with_fuel(is_a, 10);
    }
}

impl IsA<C_GObject> for C_GAppInfo {
    proof fn related() {
        reveal_with_fuel(is_a, 10);
    }
}

impl IsA<C_GObject> for C_GtkEntryBuffer {
    proof fn related() {
        reveal_with_fuel(is_a, 10);
    }
}

impl IsA<C_GObject> for C_GtkPrintSettings {
    proof fn related() {
        reveal_with_fuel(is_a, 10);
    }
}

impl IsA<C_GObject> for C_GtkPageSetup {
    proof fn related() {
        reveal_with_fuel(is_a, 10);
    }
}

impl IsA<C_GObject> for C_GtkRecentManager {
    proof fn related() {
        reveal_with_fuel(is_a, 10);
    }
}

impl IsA<C_GObject> for C_GtkBuilder {
    proof fn related() {
        reveal_with_fuel(is_a, 10);
    }
}

impl IsA<C_GObject> for C_GAppLaunchContext {
    proof fn related() {
        reveal_with_fuel(is_a, 10);
    }
}

impl IsA<C_GObject> for C_GMenuModel {
    proof fn related() {
        reveal_with_fuel(is_a, 10);
    }
}

impl IsA<C_GObject> for C_GtkAdjustment {
    proof fn related() {
        reveal_with_fuel(is_a, 10);
    }
}

impl IsA<C_GtkBuildable> for C_GtkFileFilter {
    proof fn related() {
        reveal_with_fuel(is_a, 10);
    }
}

impl IsA<C_GObject> for C_GtkFileFilter {
    proof fn related() {
        reveal_with_fuel(is_a, 10);
    }
}

impl IsA<C_GtkBuildable> for C_GtkRecentFilter {
    proof fn related() {
        reveal_with_fuel(is_a, 10);
    }
}

impl IsA<C_GObject> for C_GtkRecentFilter {
    proof fn related() {
        reveal_with_fuel(is_a, 10);
    }
}

impl IsA<C_GtkBuildable> for C_GtkWidget {
    proof fn related() {
        reveal_with_fuel(is_a, 10);
    }
}

impl IsA<C_GObject> for C_GtkWidget {
    proof fn related() {
        reveal_with_fuel(is_a, 10);
    }
}

impl IsA<C_GtkWidget> for C_GtkContainer {
    proof fn related() {
        reveal_with_fuel(is_a, 10);
    }
}

impl IsA<C_GtkBuildable> for C_GtkContainer {
    proof fn related() {
        reveal_with_fuel(is_a, 10);
    }
}

impl IsA<C_GObject> for C_GtkContainer {
    proof fn related() {
        reveal_with_fuel(is_a, 10);
    }
}

impl IsA<C_GtkContainer> for C_GtkBin {
    proof fn related() {
        reveal_with_fuel(is_a, 10);
    }
}

impl IsA<C_GtkWidget> for C_GtkBin {
    proof fn related() {
        reveal_with_fuel(is_a, 10);
    }
}

impl IsA<C_GtkBuildable> for C_GtkBin {
    proof fn related() {
        reveal_with_fuel(is_a, 10);
    }
}

impl IsA<C_GObject> for C_GtkBin {
    proof fn related() {
        reveal_with_fuel(is_a, 10);
    }
}

impl IsA<C_GtkBin> for C_GtkWindow {
    proof fn related() {
        reveal_with_fuel(is_a, 10);
    }
}

impl IsA<C_GtkContainer> for C_GtkWindow {
    proof fn related() {
        reveal_with_fuel(is_a, 10);
    }
}

impl IsA<C_GtkWidget> for C_GtkWindow {
    proof fn related() {
        reveal_with_fuel(is_a, 10);
    }
}

impl IsA<C_GtkBuildable> for C_GtkWindow {
    proof fn related() {
        reveal_with_fuel(is_a, 10);
    }
}

impl IsA<C_GObject> for C_GtkWindow {
    proof fn related() {
        reveal_with_fuel(is_a, 10);
    }
}

impl IsA<C_GtkWindow> for C_GtkDialog {
    proof fn related() {
        reveal_with_fuel(is_a, 10);
    }
}

impl IsA<C_GtkBin> for C_GtkDialog {
    proof fn related() {
        reveal_with_fuel(is_a, 10);
    }
}

impl IsA<C_GtkContainer> for C_GtkDialog {
    proof fn related() {
        reveal_with_fuel(is_a, 10);
    }
}

impl IsA<C_GtkWidget> for C_GtkDialog {
    proof fn related() {
        reveal_with_fuel(is_a, 10);
    }
}

impl IsA<C_GtkBuildable> for C_GtkDialog {
    proof fn related() {
        reveal_with_fuel(is_a, 10);
    }
}

impl IsA<C_GObject> for C_GtkDialog {
    proof fn related() {
        reveal_with_fuel(is_a, 10);
    }
}

impl IsA<C_GtkDialog> for C_GtkAboutDialog {
    proof fn related() {
        reveal_with_fuel(is_a, 10);
    }
}

impl IsA<C_GtkWindow> for C_GtkAboutDialog {
    proof fn related() {
        reveal_with_fuel(is_a, 10);
    }
}

impl IsA<C_GtkBin> for C_GtkAboutDialog {
    proof fn related() {
        reveal_with_fuel(is_a, 10);
    }
}

impl IsA<C_GtkContainer> for C_GtkAboutDialog {
    proof fn related() {
        reveal_with_fuel(is_a, 10);
    }
}

impl IsA<C_GtkWidget> for C_GtkAboutDialog {
    proof fn related() {
        reveal_with_fuel(is_a, 10);
    }
}

impl IsA<C_GtkBuildable> for C_GtkAboutDialog {
    proof fn related() {
        reveal_with_fuel(is_a, 10);
    }
}

impl IsA<C_GObject> for C_GtkAboutDialog {
    proof fn related() {
        reveal_with_fuel(is_a, 10);
    }
}

impl IsA<C_GtkDialog> for C_GtkMessageDialog {
    proof fn related() {
        reveal_with_fuel(is_a, 10);
    }
}

impl IsA<C_GtkWindow> for C_GtkMessageDialog {
    proof fn related() {
        reveal_with_fuel(is_a, 10);
    }
}

impl IsA<C_GtkBin> for C_GtkMessageDialog {
    proof fn related() {
        reveal_with_fuel(is_a, 10);
    }
}

impl IsA<C_GtkContainer> for C_GtkMessageDialog {
    proof fn related() {
        reveal_with_fuel(is_a, 10);
    }
}

impl IsA<C_GtkWidget> for C_GtkMessageDialog {
    proof fn related() {
        reveal_with_fuel(is_a, 10);
    }
}

impl IsA<C_GtkBuildable> for C_GtkMessageDialog {
    proof fn related() {
        reveal_with_fuel(is_a, 10);
    }
}

impl IsA<C_GObject> for C_GtkMessageDialog {
    proof fn related() {
        reveal_with_fuel(is_a, 10);
    }
}

impl IsA<C_GtkAppChooser> for C_GtkAppChooserDialog {
    proof fn related() {
        reveal_with_fuel(is_a, 10);
    }
}

impl IsA<C_GtkDialog> for C_GtkAppChooserDialog {
    proof fn related() {
        reveal_with_fuel(is_a, 10);
    }
}

impl IsA<C_GtkWindow> for C_GtkAppChooserDialog {
    proof fn related() {
        reveal_with_fuel(is_a, 10);
    }
}

impl IsA<C_GtkBin> for C_GtkAppChooserDialog {
    proof fn related() {
        reveal_with_fuel(is_a, 10);
    }
}

impl IsA<C_GtkContainer> for C_GtkAppChooserDialog {
    proof fn related() {
        reveal_with_fuel(is_a, 10);
    }
}

impl IsA<C_GtkWidget> for C_GtkAppChooserDialog {
    proof fn related() {
        reveal_with_fuel(is_a, 10);
    }
}

impl IsA<C_GtkBuildable> for C_GtkAppChooserDialog {
    proof fn related() {
        reveal_with_fuel(is_a, 10);
    }
}

impl IsA<C_GObject> for C_GtkAppChooserDialog {
    proof fn related() {
        reveal_with_fuel(is_a, 10);
    }
}

impl IsA<C_GtkColorChooser> for C_GtkColorChooserDialog {
    proof fn related() {
        reveal_with_fuel(is_a, 10);
    }
}

impl IsA<C_GtkDialog> for C_GtkColorChooserDialog {
    proof fn related() {
        reveal_with_fuel(is_a, 10);
    }
}

impl IsA<C_GtkWindow> for C_GtkColorChooserDialog {
    proof fn related() {
        reveal_with_fuel(is_a, 10);
    }
}

impl IsA<C_GtkBin> for C_GtkColorChooserDialog {
    proof fn related() {
        reveal_with_fuel(is_a, 10);
    }
}

impl IsA<C_GtkContainer> for C_GtkColorChooserDialog {
    proof fn related() {
        reveal_with_fuel(is_a, 10);
    }
}

impl IsA<C_GtkWidget> for C_GtkColorChooserDialog {
    proof fn related() {
        reveal_with_fuel(is_a, 10);
    }
}

impl IsA<C_GtkBuildable> for C_GtkColorChooserDialog {
    proof fn related() {
        reveal_with_fuel(is_a, 10);
    }
}

impl IsA<C_GObject> for C_GtkColorChooserDialog {
    proof fn related() {
        reveal_with_fuel(is_a, 10);
    }
}

impl IsA<C_GtkFileChooser> for C_GtkFileChooserDialog {
    proof fn related() {
        reveal_with_fuel(is_a, 10);
    }
}

impl IsA<C_GtkDialog> for C_GtkFileChooserDialog {
    proof fn related() {
        reveal_with_fuel(is_a, 10);
    }
}

impl IsA<C_GtkWindow> for C_GtkFileChooserDialog {
    proof fn related() {
        reveal_with_fuel(is_a, 10);
    }
}

impl IsA<C_GtkBin> for C_GtkFileChooserDialog {
    proof fn related() {
        reveal_with_fuel(is_a, 10);
    }
}

impl IsA<C_GtkContainer> for C_GtkFileChooserDialog {
    proof fn related() {
        reveal_with_fuel(is_a, 10);
    }
}

impl IsA<C_GtkWidget> for C_GtkFileChooserDialog {
    proof fn related() {
        reveal_with_fuel(is_a, 10);
    }
}

impl IsA<C_GtkBuildable> for C_GtkFileChooserDialog {
    proof fn related() {
        reveal_with_fuel(is_a, 10);
    }
}

impl IsA<C_GObject> for C_GtkFileChooserDialog {
    proof fn related() {
        reveal_with_fuel(is_a, 10);
    }
}

impl IsA<C_GtkFontChooser> for C_GtkFontChooserDialog {
    proof fn related() {
        reveal_with_fuel(is_a, 10);
    }
}

impl IsA<C_GtkDialog> for C_GtkFontChooserDialog {
    proof fn related() {
        reveal_with_fuel(is_a, 10);
    }
}

impl IsA<C_GtkWindow> for C_GtkFontChooserDialog {
    proof fn related() {
        reveal_with_fuel(is_a, 10);
    }
}

impl IsA<C_GtkBin> for C_GtkFontChooserDialog {
    proof fn related() {
        reveal_with_fuel(is_a, 10);
    }
}

impl IsA<C_GtkContainer> for C_GtkFontChooserDialog {
    proof fn related() {
        reveal_with_fuel(is_a, 10);
    }
}

impl IsA<C_GtkWidget> for C_GtkFontChooserDialog {
    proof fn related() {
        reveal_with_fuel(is_a, 10);
    }
}

impl IsA<C_GtkBuildable> for C_GtkFontChooserDialog {
    proof fn related() {
        reveal_with_fuel(is_a, 10);
    }
}

impl IsA<C_GObject> for C_GtkFontChooserDialog {
    proof fn related() {
        reveal_with_fuel(is_a, 10);
    }
}

impl IsA<C_GtkRecentChooser> for C_GtkRecentChooserDialog {
    proof fn related() {
        reveal_with_fuel(is_a, 10);
    }
}

impl IsA<C_GtkDialog> for C_GtkRecentChooserDialog {
    proof fn related() {
        reveal_with_fuel(is_a, 10);
    }
}

impl IsA<C_GtkWindow> for C_GtkRecentChooserDialog {
    proof fn related() {
        reveal_with_fuel(is_a, 10);
    }
}

impl IsA<C_GtkBin> for C_GtkRecentChooserDialog {
    proof fn related() {
        reveal_with_fuel(is_a, 10);
    }
}

impl IsA<C_GtkContainer> for C_GtkRecentChooserDialog {
    proof fn related() {
        reveal_with_fuel(is_a, 10);
    }
}

impl IsA<C_GtkWidget> for C_GtkRecentChooserDialog {
    proof fn related() {
        reveal_with_fuel(is_a, 10);
    }
}

impl IsA<C_GtkBuildable> for C_GtkRecentChooserDialog {
    proof fn related() {
        reveal_with_fuel(is_a, 10);
    }
}

impl IsA<C_GObject> for C_GtkRecentChooserDialog {
    proof fn related() {
        reveal_with_fuel(is_a, 10);
    }
}

impl IsA<C_GtkBin> for C_GtkButton {
    proof fn related() {
        reveal_with_fuel(is_a, 10);
    }
}

impl IsA<C_GtkContainer> for C_GtkButton {
    proof fn related() {
        reveal_with_fuel(is_a, 10);
    }
}

impl IsA<C_GtkWidget> for C_GtkButton {
    proof fn related() {
        reveal_with_fuel(is_a, 10);
    }
}

impl IsA<C_GtkBuildable> for C_GtkButton {
    proof fn related() {
        reveal_with_fuel(is_a, 10);
    }
}

impl IsA<C_GObject> for C_GtkButton {
    proof fn related() {
        reveal_with_fuel(is_a, 10);
    }
}

impl IsA<C_GtkButton> for C_GtkToggleButton {
    proof fn related() {
        reveal_with_fuel(is_a, 10);
    }
}

impl IsA<C_GtkBin> for C_GtkToggleButton {
    proof fn related() {
        reveal_with_fuel(is_a, 10);
    }
}

impl IsA<C_GtkContainer> for C_GtkToggleButton {
    proof fn related() {
        reveal_with_fuel(is_a, 10);
    }
}

impl IsA<C_GtkWidget> for C_GtkToggleButton {
    proof fn related() {
        reveal_with_fuel(is_a, 10);
    }
}

impl IsA<C_GtkBuildable> for C_GtkToggleButton {
    proof fn related() {
        reveal_with_fuel(is_a, 10);
    }
}

impl IsA<C_GObject> for C_GtkToggleButton {
    proof fn related() {
        reveal_with_fuel(is_a, 10);
    }
}

impl IsA<C_GtkToggleButton> for C_GtkCheckButton {
    proof fn related() {
        reveal_with_fuel(is_a, 10);
    }
}

impl IsA<C_GtkButton> for C_GtkCheckButton {
    proof fn related() {
        reveal_with_fuel(is_a, 10);
    }
}

impl IsA<C_GtkBin> for C_GtkCheckButton {
    proof fn related() {
        reveal_with_fuel(is_a, 10);
    }
}

impl IsA<C_GtkContainer> for C_GtkCheckButton {
    proof fn related() {
        reveal_with_fuel(is_a, 10);
    }
}

impl IsA<C_GtkWidget> for C_GtkCheckButton {
    proof fn related() {
        reveal_with_fuel(is_a, 10);
    }
}

impl IsA<C_GtkBuildable> for C_GtkCheckButton {
    proof fn related() {
        reveal_with_fuel(is_a, 10);
    }
}

impl IsA<C_GObject> for C_GtkCheckButton {
    proof fn related() {
        reveal_with_fuel(is_a, 10);
    }
}

impl IsA<C_GtkToggleButton> for C_GtkMenuButton {
    proof fn related() {
        reveal_with_fuel(is_a, 10);
    }
}

impl IsA<C_GtkButton> for C_GtkMenuButton {
    proof fn related() {
        reveal_with_fuel(is_a, 10);
    }
}

impl IsA<C_GtkBin> for C_GtkMenuButton {
    proof fn related() {
        reveal_with_fuel(is_a, 10);
    }
}

impl IsA<C_GtkContainer> for C_GtkMenuButton {
    proof fn related() {
        reveal_with_fuel(is_a, 10);
    }
}

impl IsA<C_GtkWidget> for C_GtkMenuButton {
    proof fn related() {
        reveal_with_fuel(is_a, 10);
    }
}

impl IsA<C_GtkBuildable> for C_GtkMenuButton {
    proof fn related() {
        reveal_with_fuel(is_a, 10);
    }
}

impl IsA<C_GObject> for C_GtkMenuButton {
    proof fn related() {
        reveal_with_fuel(is_a, 10);
    }
}

impl IsA<C_GtkColorChooser> for C_GtkColorButton {
    proof fn related() {
        reveal_with_fuel(is_a, 10);
    }
}

impl IsA<C_GtkButton> for C_GtkColorButton {
    proof fn related() {
        reveal_with_fuel(is_a, 10);
    }
}

impl IsA<C_GtkBin> for C_GtkColorButton {
    proof fn related() {
        reveal_with_fuel(is_a, 10);
    }
}

impl IsA<C_GtkContainer> for C_GtkColorButton {
    proof fn related() {
        reveal_with_fuel(is_a, 10);
    }
}

impl IsA<C_GtkWidget> for C_GtkColorButton {
    proof fn related() {
        reveal_with_fuel(is_a, 10);
    }
}

impl IsA<C_GtkBuildable> for C_GtkColorButton {
    proof fn related() {
        reveal_with_fuel(is_a, 10);
    }
}

impl IsA<C_GObject> for C_GtkColorButton {
    proof fn related() {
        reveal_with_fuel(is_a, 10);
    }
}

impl IsA<C_GtkFontChooser> for C_GtkFontButton {
    proof fn related() {
        reveal_with_fuel(is_a, 10);
    }
}

impl IsA<C_GtkButton> for C_GtkFontButton {
    proof fn related() {
        reveal_with_fuel(is_a, 10);
    }
}

impl IsA<C_GtkBin> for C_GtkFontButton {
    proof fn related() {
        reveal_with_fuel(is_a, 10);
    }
}

impl IsA<C_GtkContainer> for C_GtkFontButton {
    proof fn related() {
        reveal_with_fuel(is_a, 10);
    }
}

impl IsA<C_GtkWidget> for C_GtkFontButton {
    proof fn related() {
        reveal_with_fuel(is_a, 10);
    }
}

impl IsA<C_GtkBuildable> for C_GtkFontButton {
    proof fn related() {
        reveal_with_fuel(is_a, 10);
    }
}

impl IsA<C_GObject> for C_GtkFontButton {
    proof fn related() {
        reveal_with_fuel(is_a, 10);
    }
}

impl IsA<C_GtkButton> for C_GtkLinkButton {
    proof fn related() {
        reveal_with_fuel(is_a, 10);
    }
}

impl IsA<C_GtkBin> for C_GtkLinkButton {
    proof fn related() {
        reveal_with_fuel(is_a, 10);
    }
}

impl IsA<C_GtkContainer> for C_GtkLinkButton {
    proof fn related() {
        reveal_with_fuel(is_a, 10);
    }
}

impl IsA<C_GtkWidget> for C_GtkLinkButton {
    proof fn related() {
        reveal_with_fuel(is_a, 10);
    }
}

impl IsA<C_GtkBuildable> for C_GtkLinkButton {
    proof fn related() {
        reveal_with_fuel(is_a, 10);
    }
}

impl IsA<C_GObject> for C_GtkLinkButton {
    proof fn related() {
        reveal_with_fuel(is_a, 10);
    }
}

impl IsA<C_GtkOrientable> for C_GtkScaleButton {
    proof fn related() {
        reveal_with_fuel(is_a, 10);
    }
}

impl IsA<C_GtkButton> for C_GtkScaleButton {
    proof fn related() {
        reveal_with_fuel(is_a, 10);
    }
}

impl IsA<C_GtkBin> for C_GtkScaleButton {
    proof fn related() {
        reveal_with_fuel(is_a, 10);
    }
}

impl IsA<C_GtkContainer> for C_GtkScaleButton {
    proof fn related() {
        reveal_with_fuel(is_a, 10);
    }
}

impl IsA<C_GtkWidget> for C_GtkScaleButton {
    proof fn related() {
        reveal_with_fuel(is_a, 10);
    }
}

impl IsA<C_GtkBuildable> for C_GtkScaleButton {
    proof fn related() {
        reveal_with_fuel(is_a, 10);
    }
}

impl IsA<C_GObject> for C_GtkScaleButton {
    proof fn related() {
        reveal_with_fuel(is_a, 10);
    }
}

impl IsA<C_GtkScaleButton> for C_GtkVolumeButton {
    proof fn related() {
        reveal_with_fuel(is_a, 10);
    }
}

impl IsA<C_GtkOrientable> for C_GtkVolumeButton {
    proof fn related() {
        reveal_with_fuel(is_a, 10);
    }
}

impl IsA<C_GtkButton> for C_GtkVolumeButton {
    proof fn related() {
        reveal_with_fuel(is_a, 10);
    }
}

impl IsA<C_GtkBin> for C_GtkVolumeButton {
    proof fn related() {
        reveal_with_fuel(is_a, 10);
    }
}

impl IsA<C_GtkContainer> for C_GtkVolumeButton {
    proof fn related() {
        reveal_with_fuel(is_a, 10);
    }
}

impl IsA<C_GtkWidget> for C_GtkVolumeButton {
    proof fn related() {
        reveal_with_fuel(is_a, 10);
    }
}

impl IsA<C_GtkBuildable> for C_GtkVolumeButton {
    proof fn related() {
        reveal_with_fuel(is_a, 10);
    }
}

impl IsA<C_GObject> for C_GtkVolumeButton {
    proof fn related() {
        reveal_with_fuel(is_a, 10);
    }
}

impl IsA<C_GtkBin> for C_GtkComboBox {
    proof fn related() {
        reveal_with_fuel(is_a, 10);
    }
}

impl IsA<C_GtkContainer> for C_GtkComboBox {
    proof fn related() {
        reveal_with_fuel(is_a, 10);
    }
}

impl IsA<C_GtkWidget> for C_GtkComboBox {
    proof fn related() {
        reveal_with_fuel(is_a, 10);
    }
}

impl IsA<C_GtkBuildable> for C_GtkComboBox {
    proof fn related() {
        reveal_with_fuel(is_a, 10);
    }
}

impl IsA<C_GObject> for C_GtkComboBox {
    proof fn related() {
        reveal_with_fuel(is_a, 10);
    }
}

impl IsA<C_GtkBin> for C_GtkFrame {
    proof fn related() {
        reveal_with_fuel(is_a, 10);
    }
}

impl IsA<C_GtkContainer> for C_GtkFrame {
    proof fn related() {
        reveal_with_fuel(is_a, 10);
    }
}

impl IsA<C_GtkWidget> for C_GtkFrame {
    proof fn related() {
        reveal_with_fuel(is_a, 10);
    }
}

impl IsA<C_GtkBuildable> for C_GtkFrame {
    proof fn related() {
        reveal_with_fuel(is_a, 10);
    }
}

impl IsA<C_GObject> for C_GtkFrame {
    proof fn related() {
        reveal_with_fuel(is_a, 10);
    }
}

impl IsA<C_GtkFrame> for C_GtkAspectFrame {
    proof fn related() {
        reveal_with_fuel(is_a, 10);
    }
}

impl IsA<C_GtkBin> for C_GtkAspectFrame {
    proof fn related() {
        reveal_with_fuel(is_a, 10);
    }
}

impl IsA<C_GtkContainer> for C_GtkAspectFrame {
    proof fn related() {
        reveal_with_fuel(is_a, 10);
    }
}

impl IsA<C_GtkWidget> for C_GtkAspectFrame {
    proof fn related() {
        reveal_with_fuel(is_a, 10);
    }
}

impl IsA<C_GtkBuildable> for C_GtkAspectFrame {
    proof fn related() {
        reveal_with_fuel(is_a, 10);
    }
}

impl IsA<C_GObject> for C_GtkAspectFrame {
    proof fn related() {
        reveal_with_fuel(is_a, 10);
    }
}

impl IsA<C_GtkBin> for C_GtkAlignment {
    proof fn related() {
        reveal_with_fuel(is_a, 10);
    }
}

impl IsA<C_GtkContainer> for C_GtkAlignment {
    proof fn related() {
        reveal_with_fuel(is_a, 10);
    }
}

impl IsA<C_GtkWidget> for C_GtkAlignment {
    proof fn related() {
        reveal_with_fuel(is_a, 10);
    }
}

impl IsA<C_GtkBuildable> for C_GtkAlignment {
    proof fn related() {
        reveal_with_fuel(is_a, 10);
    }
}

impl IsA<C_GObject> for C_GtkAlignment {
    proof fn related() {
        reveal_with_fuel(is_a, 10);
    }
}

impl IsA<C_GtkBin> for C_GtkExpander {
    proof fn related() {
        reveal_with_fuel(is_a, 10);
    }
}

impl IsA<C_GtkContainer> for C_GtkExpander {
    proof fn related() {
        reveal_with_fuel(is_a, 10);
    }
}

impl IsA<C_GtkWidget> for C_GtkExpander {
    proof fn related() {
        reveal_with_fuel(is_a, 10);
    }
}

impl IsA<C_GtkBuildable> for C_GtkExpander {
    proof fn related() {
        reveal_with_fuel(is_a, 10);
    }
}

impl IsA<C_GObject> for C_GtkExpander {
    proof fn related() {
        reveal_with_fuel(is_a, 10);
    }
}

impl IsA<C_GtkBin> for C_GtkRevealer {
    proof fn related() {
        reveal_with_fuel(is_a, 10);
    }
}

impl IsA<C_GtkContainer> for C_GtkRevealer {
    proof fn related() {
        reveal_with_fuel(is_a, 10);
    }
}

impl IsA<C_GtkWidget> for C_GtkRevealer {
    proof fn related() {
        reveal_with_fuel(is_a, 10);
    }
}

impl IsA<C_GtkBuildable> for C_GtkRevealer {
    proof fn related() {
        reveal_with_fuel(is_a, 10);
    }
}

impl IsA<C_GObject> for C_GtkRevealer {
    proof fn related() {
        reveal_with_fuel(is_a, 10);
    }
}

impl IsA<C_GtkBin> for C_GtkOverlay {
    proof fn related() {
        reveal_with_fuel(is_a, 10);
    }
}

impl IsA<C_GtkContainer> for C_GtkOverlay {
    proof fn related() {
        reveal_with_fuel(is_a, 10);
    }
}

impl IsA<C_GtkWidget> for C_GtkOverlay {
    proof fn related() {
        reveal_with_fuel(is_a, 10);
    }
}

impl IsA<C_GtkBuildable> for C_GtkOverlay {
    proof fn related() {
        reveal_with_fuel(is_a, 10);
    }
}

impl IsA<C_GObject> for C_GtkOverlay {
    proof fn related() {
        reveal_with_fuel(is_a, 10);
    }
}

impl IsA<C_GtkBin> for C_GtkSearchBar {
    proof fn related() {
        reveal_with_fuel(is_a, 10);
    }
}

impl IsA<C_GtkContainer> for C_GtkSearchBar {
    proof fn related() {
        reveal_with_fuel(is_a, 10);
    }
}

impl IsA<C_GtkWidget> for C_GtkSearchBar {
    proof fn related() {
        reveal_with_fuel(is_a, 10);
    }
}

impl IsA<C_GtkBuildable> for C_GtkSearchBar {
    proof fn related() {
        reveal_with_fuel(is_a, 10);
    }
}

impl IsA<C_GObject> for C_GtkSearchBar {
    proof fn related() {
        reveal_with_fuel(is_a, 10);
    }
}

impl IsA<C_GtkBin> for C_GtkFlowBoxChild {
    proof fn related() {
        reveal_with_fuel(is_a, 10);
    }
}

impl IsA<C_GtkContainer> for C_GtkFlowBoxChild {
    proof fn related() {
        reveal_with_fuel(is_a, 10);
    }
}

impl IsA<C_GtkWidget> for C_GtkFlowBoxChild {
    proof fn related() {
        reveal_with_fuel(is_a, 10);
    }
}

impl IsA<C_GtkBuildable> for C_GtkFlowBoxChild {
    proof fn related() {
        reveal_with_fuel(is_a, 10);
    }
}

impl IsA<C_GObject> for C_GtkFlowBoxChild {
    proof fn related() {
        reveal_with_fuel(is_a, 10);
    }
}

impl IsA<C_GtkBin> for C_GtkListBoxRow {
    proof fn related() {
        reveal_with_fuel(is_a, 10);
    }
}

impl IsA<C_GtkContainer> for C_GtkListBoxRow {
    proof fn related() {
        reveal_with_fuel(is_a, 10);
    }
}

impl IsA<C_GtkWidget> for C_GtkListBoxRow {
    proof fn related() {
        reveal_with_fuel(is_a, 10);
    }
}

impl IsA<C_GtkBuildable> for C_GtkListBoxRow {
    proof fn related() {
        reveal_with_fuel(is_a, 10);
    }
}

impl IsA<C_GObject> for C_GtkListBoxRow {
    proof fn related() {
        reveal_with_fuel(is_a, 10);
    }
}

impl IsA<C_GtkBin> for C_GtkActionBar {
    proof fn related() {
        reveal_with_fuel(is_a, 10);
    }
}

impl IsA<C_GtkContainer> for C_GtkActionBar {
    proof fn related() {
        reveal_with_fuel(is_a, 10);
    }
}

impl IsA<C_GtkWidget> for C_GtkActionBar {
    proof fn related() {
        reveal_with_fuel(is_a, 10);
    }
}

impl IsA<C_GtkBuildable> for C_GtkActionBar {
    proof fn related() {
        reveal_with_fuel(is_a, 10);
    }
}

impl IsA<C_GObject> for C_GtkActionBar {
    proof fn related() {
        reveal_with_fuel(is_a, 10);
    }
}

impl IsA<C_GtkBin> for C_GtkToolItem {
    proof fn related() {
        reveal_with_fuel(is_a, 10);
    }
}

impl IsA<C_GtkContainer> for C_GtkToolItem {
    proof fn related() {
        reveal_with_fuel(is_a, 10);
    }
}

impl IsA<C_GtkWidget> for C_GtkToolItem {
    proof fn related() {
        reveal_with_fuel(is_a, 10);
    }
}

impl IsA<C_GtkBuildable> for C_GtkToolItem {
    proof fn related() {
        reveal_with_fuel(is_a, 10);
    }
}

impl IsA<C_GObject> for C_GtkToolItem {
    proof fn related() {
        reveal_with_fuel(is_a, 10);
    }
}

impl IsA<C_GtkToolItem> for C_GtkToolButton {
    proof fn related() {
        reveal_with_fuel(is_a, 10);
    }
}

impl IsA<C_GtkBin> for C_GtkToolButton {
    proof fn related() {
        reveal_with_fuel(is_a, 10);
    }
}

impl IsA<C_GtkContainer> for C_GtkToolButton {
    proof fn related() {
        reveal_with_fuel(is_a, 10);
    }
}

impl IsA<C_GtkWidget> for C_GtkToolButton {
    proof fn related() {
        reveal_with_fuel(is_a, 10);
    }
}

impl IsA<C_GtkBuildable> for C_GtkToolButton {
    proof fn related() {
        reveal_with_fuel(is_a, 10);
    }
}

impl IsA<C_GObject> for C_GtkToolButton {
    proof fn related() {
        reveal_with_fuel(is_a, 10);
    }
}

impl IsA<C_GtkToolButton> for C_GtkMenuToolButton {
    proof fn related() {
        reveal_with_fuel(is_a, 10);
    }
}

impl IsA<C_GtkToolItem> for C_GtkMenuToolButton {
    proof fn related() {
        reveal_with_fuel(is_a, 10);
    }
}

impl IsA<C_GtkBin> for C_GtkMenuToolButton {
    proof fn related() {
        reveal_with_fuel(is_a, 10);
    }
}

impl IsA<C_GtkContainer> for C_GtkMenuToolButton {
    proof fn related() {
        reveal_with_fuel(is_a, 10);
    }
}

impl IsA<C_GtkWidget> for C_GtkMenuToolButton {
    proof fn related() {
        reveal_with_fuel(is_a, 10);
    }
}

impl IsA<C_GtkBuildable> for C_GtkMenuToolButton {
    proof fn related() {
        reveal_with_fuel(is_a, 10);
    }
}

impl IsA<C_GObject> for C_GtkMenuToolButton {
    proof fn related() {
        reveal_with_fuel(is_a, 10);
    }
}

impl IsA<C_GtkToolButton> for C_GtkToggleToolButton {
    proof fn related() {
        reveal_with_fuel(is_a, 10);
    }
}

impl IsA<C_GtkToolItem> for C_GtkToggleToolButton {
    proof fn related() {
        reveal_with_fuel(is_a, 10);
    }
}

impl IsA<C_GtkBin> for C_GtkToggleToolButton {
    proof fn related() {
        reveal_with_fuel(is_a, 10);
    }
}

impl IsA<C_GtkContainer> for C_GtkToggleToolButton {
    proof fn related() {
        reveal_with_fuel(is_a, 10);
    }
}

impl IsA<C_GtkWidget> for C_GtkToggleToolButton {
    proof fn related() {
        reveal_with_fuel(is_a, 10);
    }
}

impl IsA<C_GtkBuildable> for C_GtkToggleToolButton {
    proof fn related() {
        reveal_with_fuel(is_a, 10);
    }
}

impl IsA<C_GObject> for C_GtkToggleToolButton {
    proof fn related() {
        reveal_with_fuel(is_a, 10);
    }
}

impl IsA<C_GtkToggleToolButton> for C_GtkRadioToolButton {
    proof fn related() {
        reveal_with_fuel(is_a, 10);
    }
}

impl IsA<C_GtkToolButton> for C_GtkRadioToolButton {
    proof fn related() {
        reveal_with_fuel(is_a, 10);
    }
}

impl IsA<C_GtkToolItem> for C_GtkRadioToolButton {
    proof fn related() {
        reveal_with_fuel(is_a, 10);
    }
}

impl IsA<C_GtkBin> for C_GtkRadioToolButton {
    proof fn related() {
        reveal_with_fuel(is_a, 10);
    }
}

impl IsA<C_GtkContainer> for C_GtkRadioToolButton {
    proof fn related() {
        reveal_with_fuel(is_a, 10);
    }
}

impl IsA<C_GtkWidget> for C_GtkRadioToolButton {
    proof fn related() {
        reveal_with_fuel(is_a, 10);
    }
}

impl IsA<C_GtkBuildable> for C_GtkRadioToolButton {
    proof fn related() {
        reveal_with_fuel(is_a, 10);
    }
}

impl IsA<C_GObject> for C_GtkRadioToolButton {
    proof fn related() {
        reveal_with_fuel(is_a, 10);
    }
}

impl IsA<C_GtkToolItem> for C_GtkSeparatorToolItem {
    proof fn related() {
        reveal_with_fuel(is_a, 10);
    }
}

impl IsA<C_GtkBin> for C_GtkSeparatorToolItem {
    proof fn related() {
        reveal_with_fuel(is_a, 10);
    }
}

impl IsA<C_GtkContainer> for C_GtkSeparatorToolItem {
    proof fn related() {
        reveal_with_fuel(is_a, 10);
    }
}

impl IsA<C_GtkWidget> for C_GtkSeparatorToolItem {
    proof fn related() {
        reveal_with_fuel(is_a, 10);
    }
}

impl IsA<C_GtkBuildable> for C_GtkSeparatorToolItem {
    proof fn related() {
        reveal_with_fuel(is_a, 10);
    }
}

impl IsA<C_GObject> for C_GtkSeparatorToolItem {
    proof fn related() {
        reveal_with_fuel(is_a, 10);
    }
}

impl IsA<C_GtkOrientable> for C_GtkBox {
    proof fn related() {
        reveal_with_fuel(is_a, 10);
    }
}

impl IsA<C_GtkContainer> for C_GtkBox {
    proof fn related() {
        reveal_with_fuel(is_a, 10);
    }
}

impl IsA<C_GtkWidget> for C_GtkBox {
    proof fn related() {
        reveal_with_fuel(is_a, 10);
    }
}

impl IsA<C_GtkBuildable> for C_GtkBox {
    proof fn related() {
        reveal_with_fuel(is_a, 10);
    }
}

impl IsA<C_GObject> for C_GtkBox {
    proof fn related() {
        reveal_with_fuel(is_a, 10);
    }
}

impl IsA<C_GtkBox> for C_GtkButtonBox {
    proof fn related() {
        reveal_with_fuel(is_a, 10);
    }
}

impl IsA<C_GtkOrientable> for C_GtkButtonBox {
    proof fn related() {
        reveal_with_fuel(is_a, 10);
    }
}

impl IsA<C_GtkContainer> for C_GtkButtonBox {
    proof fn related() {
        reveal_with_fuel(is_a, 10);
    }
}

impl IsA<C_GtkWidget> for C_GtkButtonBox {
    proof fn related() {
        reveal_with_fuel(is_a, 10);
    }
}

impl IsA<C_GtkBuildable> for C_GtkButtonBox {
    proof fn related() {
        reveal_with_fuel(is_a, 10);
    }
}

impl IsA<C_GObject> for C_GtkButtonBox {
    proof fn related() {
        reveal_with_fuel(is_a, 10);
    }
}

impl IsA<C_GtkBox> for C_GtkInfoBar {
    proof fn related() {
        reveal_with_fuel(is_a, 10);
    }
}

impl IsA<C_GtkOrientable> for C_GtkInfoBar {
    proof fn related() {
        reveal_with_fuel(is_a, 10);
    }
}

impl IsA<C_GtkContainer> for C_GtkInfoBar {
    proof fn related() {
        reveal_with_fuel(is_a, 10);
    }
}

impl IsA<C_GtkWidget> for C_GtkInfoBar {
    proof fn related() {
        reveal_with_fuel(is_a, 10);
    }
}

impl IsA<C_GtkBuildable> for C_GtkInfoBar {
    proof fn related() {
        reveal_with_fuel(is_a, 10);
    }
}

impl IsA<C_GObject> for C_GtkInfoBar {
    proof fn related() {
        reveal_with_fuel(is_a, 10);
    }
}

impl IsA<C_GtkBox> for C_GtkStackSwitcher {
    proof fn related() {
        reveal_with_fuel(is_a, 10);
    }
}

impl IsA<C_GtkOrientable> for C_GtkStackSwitcher {
    proof fn related() {
        reveal_with_fuel(is_a, 10);
    }
}

impl IsA<C_GtkContainer> for C_GtkStackSwitcher {
    proof fn related() {
        reveal_with_fuel(is_a, 10);
    }
}

impl IsA<C_GtkWidget> for C_GtkStackSwitcher {
    proof fn related() {
        reveal_with_fuel(is_a, 10);
    }
}

impl IsA<C_GtkBuildable> for C_GtkStackSwitcher {
    proof fn related() {
        reveal_with_fuel(is_a, 10);
    }
}

impl IsA<C_GObject> for C_GtkStackSwitcher {
    proof fn related() {
        reveal_with_fuel(is_a, 10);
    }
}

impl IsA<C_GtkContainer> for C_GtkFixed {
    proof fn related() {
        reveal_with_fuel(is_a, 10);
    }
}

impl IsA<C_GtkWidget> for C_GtkFixed {
    proof fn related() {
        reveal_with_fuel(is_a, 10);
    }
}

impl IsA<C_GtkBuildable> for C_GtkFixed {
    proof fn related() {
        reveal_with_fuel(is_a, 10);
    }
}

impl IsA<C_GObject> for C_GtkFixed {
    proof fn related() {
        reveal_with_fuel(is_a, 10);
    }
}

impl IsA<C_GtkOrientable> for C_GtkGrid {
    proof fn related() {
        reveal_with_fuel(is_a, 10);
    }
}

impl IsA<C_GtkContainer> for C_GtkGrid {
    proof fn related() {
        reveal_with_fuel(is_a, 10);
    }
}

impl IsA<C_GtkWidget> for C_GtkGrid {
    proof fn related() {
        reveal_with_fuel(is_a, 10);
    }
}

impl IsA<C_GtkBuildable> for C_GtkGrid {
    proof fn related() {
        reveal_with_fuel(is_a, 10);
    }
}

impl IsA<C_GObject> for C_GtkGrid {
    proof fn related() {
        reveal_with_fuel(is_a, 10);
    }
}

impl IsA<C_GtkOrientable> for C_GtkPaned {
    proof fn related() {
        reveal_with_fuel(is_a, 10);
    }
}

impl IsA<C_GtkContainer> for C_GtkPaned {
    proof fn related() {
        reveal_with_fuel(is_a, 10);
    }
}

impl IsA<C_GtkWidget> for C_GtkPaned {
    proof fn related() {
        reveal_with_fuel(is_a, 10);
    }
}

impl IsA<C_GtkBuildable> for C_GtkPaned {
    proof fn related() {
        reveal_with_fuel(is_a, 10);
    }
}

impl IsA<C_GObject> for C_GtkPaned {
    proof fn related() {
        reveal_with_fuel(is_a, 10);
    }
}

impl IsA<C_GtkOrientable> for C_GtkToolbar {
    proof fn related() {
        reveal_with_fuel(is_a, 10);
    }
}

impl IsA<C_GtkToolShell> for C_GtkToolbar {
    proof fn related() {
        reveal_with_fuel(is_a, 10);
    }
}

impl IsA<C_GtkContainer> for C_GtkToolbar {
    proof fn related() {
        reveal_with_fuel(is_a, 10);
    }
}

impl IsA<C_GtkWidget> for C_GtkToolbar {
    proof fn related() {
        reveal_with_fuel(is_a, 10);
    }
}

impl IsA<C_GtkBuildable> for C_GtkToolbar {
    proof fn related() {
        reveal_with_fuel(is_a, 10);
    }
}

impl IsA<C_GObject> for C_GtkToolbar {
    proof fn related() {
        reveal_with_fuel(is_a, 10);
    }
}

impl IsA<C_GtkContainer> for C_GtkNotebook {
    proof fn related() {
        reveal_with_fuel(is_a, 10);
    }
}

impl IsA<C_GtkWidget> for C_GtkNotebook {
    proof fn related() {
        reveal_with_fuel(is_a, 10);
    }
}

impl IsA<C_GtkBuildable> for C_GtkNotebook {
    proof fn related() {
        reveal_with_fuel(is_a, 10);
    }
}

impl IsA<C_GObject> for C_GtkNotebook {
    proof fn related() {
        reveal_with_fuel(is_a, 10);
    }
}

impl IsA<C_GtkContainer> for C_GtkStack {
    proof fn related() {
        reveal_with_fuel(is_a, 10);
    }
}

impl IsA<C_GtkWidget> for C_GtkStack {
    proof fn related() {
        reveal_with_fuel(is_a, 10);
    }
}

impl IsA<C_GtkBuildable> for C_GtkStack {
    proof fn related() {
        reveal_with_fuel(is_a, 10);
    }
}

impl IsA<C_GObject> for C_GtkStack {
    proof fn related() {
        reveal_with_fuel(is_a, 10);
    }
}

impl IsA<C_GtkScrollable> for C_GtkLayout {
    proof fn related() {
        reveal_with_fuel(is_a, 10);
    }
}

impl IsA<C_GtkContainer> for C_GtkLayout {
    proof fn related() {
        reveal_with_fuel(is_a, 10);
    }
}

impl IsA<C_GtkWidget> for C_GtkLayout {
    proof fn related() {
        reveal_with_fuel(is_a, 10);
    }
}

impl IsA<C_GtkBuildable> for C_GtkLayout {
    proof fn related() {
        reveal_with_fuel(is_a, 10);
    }
}

impl IsA<C_GObject> for C_GtkLayout {
    proof fn related() {
        reveal_with_fuel(is_a, 10);
    }
}

impl IsA<C_GtkContainer> for C_GtkHeaderBar {
    proof fn related() {
        reveal_with_fuel(is_a, 10);
    }
}

impl IsA<C_GtkWidget> for C_GtkHeaderBar {
    proof fn related() {
        reveal_with_fuel(is_a, 10);
    }
}

impl IsA<C_GtkBuildable> for C_GtkHeaderBar {
    proof fn related() {
        reveal_with_fuel(is_a, 10);
    }
}

impl IsA<C_GObject> for C_GtkHeaderBar {
    proof fn related() {
        reveal_with_fuel(is_a, 10);
    }
}

impl IsA<C_GtkOrientable> for C_GtkFlowBox {
    proof fn related() {
        reveal_with_fuel(is_a, 10);
    }
}

impl IsA<C_GtkContainer> for C_GtkFlowBox {
    proof fn related() {
        reveal_with_fuel(is_a, 10);
    }
}

impl IsA<C_GtkWidget> for C_GtkFlowBox {
    proof fn related() {
        reveal_with_fuel(is_a, 10);
    }
}

impl IsA<C_GtkBuildable> for C_GtkFlowBox {
    proof fn related() {
        reveal_with_fuel(is_a, 10);
    }
}

impl IsA<C_GObject> for C_GtkFlowBox {
    proof fn related() {
        reveal_with_fuel(is_a, 10);
    }
}

impl IsA<C_GtkContainer> for C_GtkListBox {
    proof fn related() {
        reveal_with_fuel(is_a, 10);
    }
}

impl IsA<C_GtkWidget> for C_GtkListBox {
    proof fn related() {
        reveal_with_fuel(is_a, 10);
    }
}

impl IsA<C_GtkBuildable> for C_GtkListBox {
    proof fn related() {
        reveal_with_fuel(is_a, 10);
    }
}

impl IsA<C_GObject> for C_GtkListBox {
    proof fn related() {
        reveal_with_fuel(is_a, 10);
    }
}

impl IsA<C_GtkContainer> for C_GtkMenu {
    proof fn related() {
        reveal_with_fuel(is_a, 10);
    }
}

impl IsA<C_GtkWidget> for C_GtkMenu {
    proof fn related() {
        reveal_with_fuel(is_a, 10);
    }
}

impl IsA<C_GtkBuildable> for C_GtkMenu {
    proof fn related() {
        reveal_with_fuel(is_a, 10);
    }
}

impl IsA<C_GObject> for C_GtkMenu {
    proof fn related() {
        reveal_with_fuel(is_a, 10);
    }
}

impl IsA<C_GtkWidget> for C_GtkMisc {
    proof fn related() {
        reveal_with_fuel(is_a, 10);
    }
}

impl IsA<C_GtkBuildable> for C_GtkMisc {
    proof fn related() {
        reveal_with_fuel(is_a, 10);
    }
}

impl IsA<C_GObject> for C_GtkMisc {
    proof fn related() {
        reveal_with_fuel(is_a, 10);
    }
}

impl IsA<C_GtkMisc> for C_GtkLabel {
    proof fn related() {
        reveal_with_fuel(is_a, 10);
    }
}

impl IsA<C_GtkWidget> for C_GtkLabel {
    proof fn related() {
        reveal_with_fuel(is_a, 10);
    }
}

impl IsA<C_GtkBuildable> for C_GtkLabel {
    proof fn related() {
        reveal_with_fuel(is_a, 10);
    }
}

impl IsA<C_GObject> for C_GtkLabel {
    proof fn related() {
        reveal_with_fuel(is_a, 10);
    }
}

impl IsA<C_GtkMisc> for C_GtkArrow {
    proof fn related() {
        reveal_with_fuel(is_a, 10);
    }
}

impl IsA<C_GtkWidget> for C_GtkArrow {
    proof fn related() {
        reveal_with_fuel(is_a, 10);
    }
}

impl IsA<C_GtkBuildable> for C_GtkArrow {
    proof fn related() {
        reveal_with_fuel(is_a, 10);
    }
}

impl IsA<C_GObject> for C_GtkArrow {
    proof fn related() {
        reveal_with_fuel(is_a, 10);
    }
}

impl IsA<C_GtkMisc> for C_GtkImage {
    proof fn related() {
        reveal_with_fuel(is_a, 10);
    }
}

impl IsA<C_GtkWidget> for C_GtkImage {
    proof fn related() {
        reveal_with_fuel(is_a, 10);
    }
}

impl IsA<C_GtkBuildable> for C_GtkImage {
    proof fn related() {
        reveal_with_fuel(is_a, 10);
    }
}

impl IsA<C_GObject> for C_GtkImage {
    proof fn related() {
        reveal_with_fuel(is_a, 10);
    }
}

impl IsA<C_GtkOrientable> for C_GtkRange {
    proof fn related() {
        reveal_with_fuel(is_a, 10);
    }
}

impl IsA<C_GtkWidget> for C_GtkRange {
    proof fn related() {
        reveal_with_fuel(is_a, 10);
    }
}

impl IsA<C_GtkBuildable> for C_GtkRange {
    proof fn related() {
        reveal_with_fuel(is_a, 10);
    }
}

impl IsA<C_GObject> for C_GtkRange {
    proof fn related() {
        reveal_with_fuel(is_a, 10);
    }
}

impl IsA<C_GtkRange> for C_GtkScale {
    proof fn related() {
        reveal_with_fuel(is_a, 10);
    }
}

impl IsA<C_GtkOrientable> for C_GtkScale {
    proof fn related() {
        reveal_with_fuel(is_a, 10);
    }
}

impl IsA<C_GtkWidget> for C_GtkScale {
    proof fn related() {
        reveal_with_fuel(is_a, 10);
    }
}

impl IsA<C_GtkBuildable> for C_GtkScale {
    proof fn related() {
        reveal_with_fuel(is_a, 10);
    }
}

impl IsA<C_GObject> for C_GtkScale {
    proof fn related() {
        reveal_with_fuel(is_a, 10);
    }
}

impl IsA<C_GtkEditable> for C_GtkEntry {
    proof fn related() {
        reveal_with_fuel(is_a, 10);
    }
}

impl IsA<C_GtkWidget> for C_GtkEntry {
    proof fn related() {
        reveal_with_fuel(is_a, 10);
    }
}

impl IsA<C_GtkBuildable> for C_GtkEntry {
    proof fn related() {
        reveal_with_fuel(is_a, 10);
    }
}

impl IsA<C_GObject> for C_GtkEntry {
    proof fn related() {
        reveal_with_fuel(is_a, 10);
    }
}

impl IsA<C_GtkEntry> for C_GtkSearchEntry {
    proof fn related() {
        reveal_with_fuel(is_a, 10);
    }
}

impl IsA<C_GtkEditable> for C_GtkSearchEntry {
    proof fn related() {
        reveal_with_fuel(is_a, 10);
    }
}

impl IsA<C_GtkWidget> for C_GtkSearchEntry {
    proof fn related() {
        reveal_with_fuel(is_a, 10);
    }
}

impl IsA<C_GtkBuildable> for C_GtkSearchEntry {
    proof fn related() {
        reveal_with_fuel(is_a, 10);
    }
}

impl IsA<C_GObject> for C_GtkSearchEntry {
    proof fn related() {
        reveal_with_fuel(is_a, 10);
    }
}

impl IsA<C_GtkOrientable> for C_GtkSpinButton {
    proof fn related() {
        reveal_with_fuel(is_a, 10);
    }
}

impl IsA<C_GtkEntry> for C_GtkSpinButton {
    proof fn related() {
        reveal_with_fuel(is_a, 10);
    }
}

impl IsA<C_GtkEditable> for C_GtkSpinButton {
    proof fn related() {
        reveal_with_fuel(is_a, 10);
    }
}

impl IsA<C_GtkWidget> for C_GtkSpinButton {
    proof fn related() {
        reveal_with_fuel(is_a, 10);
    }
}

impl IsA<C_GtkBuildable> for C_GtkSpinButton {
    proof fn related() {
        reveal_with_fuel(is_a, 10);
    }
}

impl IsA<C_GObject> for C_GtkSpinButton {
    proof fn related() {
        reveal_with_fuel(is_a, 10);
    }
}

impl IsA<C_GtkWidget> for C_GtkSwitch {
    proof fn related() {
        reveal_with_fuel(is_a, 10);
    }
}

impl IsA<C_GtkBuildable> for C_GtkSwitch {
    proof fn related() {
        reveal_with_fuel(is_a, 10);
    }
}

impl IsA<C_GObject> for C_GtkSwitch {
    proof fn related() {
        reveal_with_fuel(is_a, 10);
    }
}

impl IsA<C_GtkOrientable> for C_GtkLevelBar {
    proof fn related() {
        reveal_with_fuel(is_a, 10);
    }
}

impl IsA<C_GtkWidget> for C_GtkLevelBar {
    proof fn related() {
        reveal_with_fuel(is_a, 10);
    }
}

impl IsA<C_GtkBuildable> for C_GtkLevelBar {
    proof fn related() {
        reveal_with_fuel(is_a, 10);
    }
}

impl IsA<C_GObject> for C_GtkLevelBar {
    proof fn related() {
        reveal_with_fuel(is_a, 10);
    }
}

impl IsA<C_GtkWidget> for C_GtkSpinner {
    proof fn related() {
        reveal_with_fuel(is_a, 10);
    }
}

impl IsA<C_GtkBuildable> for C_GtkSpinner {
    proof fn related() {
        reveal_with_fuel(is_a, 10);
    }
}

impl IsA<C_GObject> for C_GtkSpinner {
    proof fn related() {
        reveal_with_fuel(is_a, 10);
    }
}

impl IsA<C_GtkOrientable> for C_GtkProgressBar {
    proof fn related() {
        reveal_with_fuel(is_a, 10);
    }
}

impl IsA<C_GtkWidget> for C_GtkProgressBar {
    proof fn related() {
        reveal_with_fuel(is_a, 10);
    }
}

impl IsA<C_GtkBuildable> for C_GtkProgressBar {
    proof fn related() {
        reveal_with_fuel(is_a, 10);
    }
}

impl IsA<C_GObject> for C_GtkProgressBar {
    proof fn related() {
        reveal_with_fuel(is_a, 10);
    }
}

impl IsA<C_GtkWidget> for C_GtkCalendar {
    proof fn related() {
        reveal_with_fuel(is_a, 10);
    }
}

impl IsA<C_GtkBuildable> for C_GtkCalendar {
    proof fn related() {
        reveal_with_fuel(is_a, 10);
    }
}

impl IsA<C_GObject> for C_GtkCalendar {
    proof fn related() {
        reveal_with_fuel(is_a, 10);
    }
}

impl IsA<C_GtkWidget> for C_GtkInvisible {
    proof fn related() {
        reveal_with_fuel(is_a, 10);
    }
}

impl IsA<C_GtkBuildable> for C_GtkInvisible {
    proof fn related() {
        reveal_with_fuel(is_a, 10);
    }
}

impl IsA<C_GObject> for C_GtkInvisible {
    proof fn related() {
        reveal_with_fuel(is_a, 10);
    }
}

} // verus!
