use rgtk::glib::types::{type_is_a, ClassId};

fn all_classes() -> Vec<ClassId> {
    let classes = [
        ClassId::Object, ClassId::InitiallyUnowned, ClassId::Orientable, ClassId::ToolShell,
        ClassId::FileChooser, ClassId::AppChooser, ClassId::FontChooser, ClassId::ColorChooser,
        ClassId::RecentChooser, ClassId::Editable, ClassId::Scrollable, ClassId::Buildable,
        ClassId::AppInfo, ClassId::EntryBuffer, ClassId::PrintSettings, ClassId::PageSetup,
        ClassId::RecentManager, ClassId::Builder, ClassId::AppLaunchContext, ClassId::MenuModel,
        ClassId::Adjustment, ClassId::FileFilter, ClassId::RecentFilter, ClassId::Widget,
        ClassId::Container, ClassId::Bin, ClassId::Window, ClassId::Dialog, ClassId::AboutDialog,
        ClassId::MessageDialog, ClassId::AppChooserDialog, ClassId::ColorChooserDialog,
        ClassId::FileChooserDialog, ClassId::FontChooserDialog, ClassId::RecentChooserDialog,
        ClassId::Button, ClassId::ToggleButton, ClassId::CheckButton, ClassId::MenuButton,
        ClassId::ColorButton, ClassId::FontButton, ClassId::LinkButton, ClassId::ScaleButton,
        ClassId::VolumeButton, ClassId::ComboBox, ClassId::Frame, ClassId::AspectFrame,
        ClassId::Alignment, ClassId::Expander, ClassId::Revealer, ClassId::Overlay,
        ClassId::SearchBar, ClassId::FlowBoxChild, ClassId::ListBoxRow, ClassId::ActionBar,
        ClassId::ToolItem, ClassId::ToolButton, ClassId::MenuToolButton,
        ClassId::ToggleToolButton, ClassId::RadioToolButton, ClassId::SeparatorToolItem,
        ClassId::Box, ClassId::ButtonBox, ClassId::InfoBar, ClassId::StackSwitcher,
        ClassId::Fixed, ClassId::Grid, ClassId::Paned, ClassId::Toolbar, ClassId::Notebook,
        ClassId::Stack, ClassId::Layout, ClassId::HeaderBar, ClassId::FlowBox, ClassId::ListBox,
        ClassId::MenuShell, ClassId::Menu, ClassId::Misc, ClassId::Label, ClassId::Arrow,
        ClassId::Image, ClassId::Range, ClassId::Scale, ClassId::Entry, ClassId::SearchEntry,
        ClassId::SpinButton, ClassId::Switch, ClassId::LevelBar, ClassId::Spinner,
        ClassId::ProgressBar, ClassId::Calendar, ClassId::Invisible,
    ];
    classes.to_vec()
}

#[test]
fn only_the_root_has_no_parent() {
    for c in all_classes() {
        assert_eq!(c.parent().is_none(), c == ClassId::Object, "{:?}", c);
    }
}

#[test]
fn every_class_descends_from_the_root() {
    for c in all_classes() {
        assert!(type_is_a(c, ClassId::Object), "{:?}", c);
    }
}

#[test]
fn the_relation_is_reflexive() {
    for c in all_classes() {
        assert!(type_is_a(c, c), "{:?}", c);
    }
}

#[test]
fn the_relation_is_antisymmetric() {
    let all = all_classes();
    for a in &all {
        for b in &all {
            if type_is_a(*a, *b) && type_is_a(*b, *a) {
                assert_eq!(a, b);
            }
        }
    }
}

#[test]
fn the_relation_is_transitive() {
    let all = all_classes();
    for a in &all {
        for b in &all {
            if !type_is_a(*a, *b) {
                continue;
            }
            for c in &all {
                if type_is_a(*b, *c) {
                    assert!(type_is_a(*a, *c), "{:?} {:?} {:?}", a, b, c);
                }
            }
        }
    }
}

#[test]
fn the_chain_of_the_check_button() {
    let chain = [
        ClassId::CheckButton,
        ClassId::ToggleButton,
        ClassId::Button,
        ClassId::Bin,
        ClassId::Container,
        ClassId::Widget,
        ClassId::InitiallyUnowned,
        ClassId::Object,
    ];
    for pair in chain.windows(2) {
        assert_eq!(pair[0].parent(), Some(pair[1]));
    }
    for ancestor in chain {
        assert!(type_is_a(ClassId::CheckButton, ancestor));
    }
    assert!(!type_is_a(ClassId::Button, ClassId::CheckButton));
    assert!(!type_is_a(ClassId::Widget, ClassId::Container));
}

#[test]
fn a_button_is_no_window() {
    assert!(!type_is_a(ClassId::Button, ClassId::Window));
    assert!(!type_is_a(ClassId::Window, ClassId::Button));
    assert!(type_is_a(ClassId::Button, ClassId::Bin));
    assert!(type_is_a(ClassId::Window, ClassId::Bin));
}

#[test]
fn dialogs_are_windows() {
    for d in [
        ClassId::Dialog,
        ClassId::AboutDialog,
        ClassId::MessageDialog,
        ClassId::AppChooserDialog,
        ClassId::ColorChooserDialog,
        ClassId::FileChooserDialog,
        ClassId::FontChooserDialog,
        ClassId::RecentChooserDialog,
    ] {
        assert!(type_is_a(d, ClassId::Dialog));
        assert!(type_is_a(d, ClassId::Window));
        assert!(!type_is_a(ClassId::Window, d));
    }
}

#[test]
fn interfaces_are_additional_edges() {
    assert!(ClassId::Box.implements(ClassId::Orientable));
    assert!(type_is_a(ClassId::Box, ClassId::Orientable));
    // inherited through the parent class
    assert!(!ClassId::ButtonBox.implements(ClassId::Orientable));
    assert!(type_is_a(ClassId::ButtonBox, ClassId::Orientable));
    assert!(type_is_a(ClassId::VolumeButton, ClassId::Orientable));
    assert!(type_is_a(ClassId::FileChooserDialog, ClassId::FileChooser));
    assert!(type_is_a(ClassId::Toolbar, ClassId::ToolShell));
    assert!(type_is_a(ClassId::Toolbar, ClassId::Orientable));
    assert!(type_is_a(ClassId::SpinButton, ClassId::Editable));
    assert!(type_is_a(ClassId::Label, ClassId::Buildable));
    assert!(!type_is_a(ClassId::Button, ClassId::Orientable));
    assert!(!type_is_a(ClassId::Orientable, ClassId::Box));
    assert!(!type_is_a(ClassId::Orientable, ClassId::Widget));
}

#[test]
fn interfaces_are_marked() {
    assert!(ClassId::Orientable.is_interface());
    assert!(ClassId::FileChooser.is_interface());
    assert!(!ClassId::Widget.is_interface());
    assert!(!ClassId::Object.is_interface());
    for c in all_classes() {
        if c.is_interface() {
            assert_eq!(c.parent(), Some(ClassId::Object));
        }
    }
}

#[test]
fn objects_outside_the_widget_tree() {
    assert!(!type_is_a(ClassId::EntryBuffer, ClassId::InitiallyUnowned));
    assert!(!type_is_a(ClassId::EntryBuffer, ClassId::Widget));
    assert!(type_is_a(ClassId::Adjustment, ClassId::InitiallyUnowned));
    assert!(!type_is_a(ClassId::Adjustment, ClassId::Widget));
}

#[test]
fn classes_have_the_names_of_the_type_system() {
    assert_eq!(ClassId::Object.class_name(), "GObject");
    assert_eq!(ClassId::InitiallyUnowned.class_name(), "GInitiallyUnowned");
    assert_eq!(ClassId::Widget.class_name(), "GtkWidget");
    assert_eq!(ClassId::MessageDialog.class_name(), "GtkMessageDialog");
    assert_eq!(ClassId::AppInfo.class_name(), "GAppInfo");
}

#[test]
fn every_class_is_found_by_its_name() {
    for c in all_classes() {
        assert_eq!(ClassId::from_class_name(c.class_name()), Some(c));
    }
}

#[test]
fn unknown_names_find_no_class() {
    for name in ["", "GtkNoSuchWidget", "gtkwidget", "GtkWidget ", "GtkWidge", "GtkWidgets"] {
        assert_eq!(ClassId::from_class_name(name), None, "{:?}", name);
    }
}
