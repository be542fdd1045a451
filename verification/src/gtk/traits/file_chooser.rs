//! Widgets that choose a file.

use crate::ffi::{Arg, ArgView, Call, CallView, Symbol};
use crate::glib::error::Error;
use crate::glib::glib_container::GlibContainer;
use crate::glib::traits::{AsPtr, Cast, ConstPtr, IsA};
use crate::glib::translate::{has_nul, CStrBuf};
use crate::glib::{spec_to_gboolean, to_gboolean};
use crate::gtk::enums::FileChooserAction;
use crate::gtk::ffi::C_GtkFileChooser;
use vstd::prelude::*;
use vstd::string::StringSliceAdditionalSpecFns;

verus! {

/// The operations of a file chooser. A call that returns a string hands over a
/// string of its own, or the null pointer; a call that returns a list hands
/// over the list and its strings.
///
/// Every handle whose tag is related to the class has them.
pub trait FileChooserTrait: AsPtr {
    /// The call that sets what the chooser is for.
    fn set_action(&self, action: FileChooserAction) -> (call: Call)
        ensures
            call@ == (CallView {
                symbol: Symbol::GtkFileChooserSetAction,
                args: seq![ArgView::Pointer(self.addr()), ArgView::Int(action.spec_to_glib())],
            }),
    ;

    /// The call that asks what the chooser is for; it returns the value of an
    /// enumeration, which [`FileChooserAction::from_glib`] reads.
    fn get_action(&self) -> (call: Call)
        ensures
            call@ == (CallView {
                symbol: Symbol::GtkFileChooserGetAction,
                args: seq![ArgView::Pointer(self.addr())],
            }),
    ;

    /// The call that sets whether only local files can be chosen.
    fn set_local_only(&self, local_only: bool) -> (call: Call)
        ensures
            call@ == (CallView {
                symbol: Symbol::GtkFileChooserSetLocalOnly,
                args: seq![
                    ArgView::Pointer(self.addr()),
                    ArgView::Int(spec_to_gboolean(local_only)),
                ],
            }),
    ;

    /// The call that asks whether only local files can be chosen; it returns a
    /// truth value.
    fn get_local_only(&self) -> (call: Call)
        ensures
            call@ == (CallView {
                symbol: Symbol::GtkFileChooserGetLocalOnly,
                args: seq![ArgView::Pointer(self.addr())],
            }),
    ;

    /// The call that sets whether several files can be chosen at once.
    fn set_select_multiple(&self, select_multiple: bool) -> (call: Call)
        ensures
            call@ == (CallView {
                symbol: Symbol::GtkFileChooserSetSelectMultiple,
                args: seq![
                    ArgView::Pointer(self.addr()),
                    ArgView::Int(spec_to_gboolean(select_multiple)),
                ],
            }),
    ;

    /// The call that asks whether several files can be chosen at once; it
    /// returns a truth value.
    fn get_select_multiple(&self) -> (call: Call)
        ensures
            call@ == (CallView {
                symbol: Symbol::GtkFileChooserGetSelectMultiple,
                args: seq![ArgView::Pointer(self.addr())],
            }),
    ;

    /// The call that sets whether hidden files are shown.
    fn set_show_hidden(&self, show_hidden: bool) -> (call: Call)
        ensures
            call@ == (CallView {
                symbol: Symbol::GtkFileChooserSetShowHidden,
                args: seq![
                    ArgView::Pointer(self.addr()),
                    ArgView::Int(spec_to_gboolean(show_hidden)),
                ],
            }),
    ;

    /// The call that asks whether hidden files are shown; it returns a truth
    /// value.
    fn get_show_hidden(&self) -> (call: Call)
        ensures
            call@ == (CallView {
                symbol: Symbol::GtkFileChooserGetShowHidden,
                args: seq![ArgView::Pointer(self.addr())],
            }),
    ;

    /// The call that sets whether the chooser asks before a file is
    /// overwritten.
    fn set_do_overwrite_confirmation(&self, do_overwrite_confirmation: bool) -> (call: Call)
        ensures
            call@ == (CallView {
                symbol: Symbol::GtkFileChooserSetDoOverwriteConfirmation,
                args: seq![
                    ArgView::Pointer(self.addr()),
                    ArgView::Int(spec_to_gboolean(do_overwrite_confirmation)),
                ],
            }),
    ;

    /// The call that asks whether the chooser asks before a file is
    /// overwritten; it returns a truth value.
    fn get_do_overwrite_confirmation(&self) -> (call: Call)
        ensures
            call@ == (CallView {
                symbol: Symbol::GtkFileChooserGetDoOverwriteConfirmation,
                args: seq![ArgView::Pointer(self.addr())],
            }),
    ;

    /// The call that sets whether the chooser offers to make folders.
    fn set_create_folders(&self, create_folders: bool) -> (call: Call)
        ensures
            call@ == (CallView {
                symbol: Symbol::GtkFileChooserSetCreateFolders,
                args: seq![
                    ArgView::Pointer(self.addr()),
                    ArgView::Int(spec_to_gboolean(create_folders)),
                ],
            }),
    ;

    /// The call that asks whether the chooser offers to make folders; it
    /// returns a truth value.
    fn get_create_folders(&self) -> (call: Call)
        ensures
            call@ == (CallView {
                symbol: Symbol::GtkFileChooserGetCreateFolders,
                args: seq![ArgView::Pointer(self.addr())],
            }),
    ;

    /// The call that sets the name in the entry of a chooser for saving.
    fn set_current_name(&self, name: &str) -> (call: Call)
        requires
            !has_nul(name.spec_bytes()),
        ensures
            call@ == (CallView {
                symbol: Symbol::GtkFileChooserSetCurrentName,
                args: seq![ArgView::Pointer(self.addr()), ArgView::Str(name.spec_bytes())],
            }),
    ;

    /// The call that asks for the name in the entry; it returns a string.
    fn get_current_name(&self) -> (call: Call)
        ensures
            call@ == (CallView {
                symbol: Symbol::GtkFileChooserGetCurrentName,
                args: seq![ArgView::Pointer(self.addr())],
            }),
    ;

    /// The call that makes `filename` the chosen file; it returns a truth
    /// value.
    fn set_filename(&self, filename: &str) -> (call: Call)
        requires
            !has_nul(filename.spec_bytes()),
        ensures
            call@ == (CallView {
                symbol: Symbol::GtkFileChooserSetFilename,
                args: seq![ArgView::Pointer(self.addr()), ArgView::Str(filename.spec_bytes())],
            }),
    ;

    /// The call that asks for the chosen file; it returns a string.
    fn get_filename(&self) -> (call: Call)
        ensures
            call@ == (CallView {
                symbol: Symbol::GtkFileChooserGetFilename,
                args: seq![ArgView::Pointer(self.addr())],
            }),
    ;

    /// The call that adds `filename` to the chosen files; it returns a truth
    /// value.
    fn select_filename(&self, filename: &str) -> (call: Call)
        requires
            !has_nul(filename.spec_bytes()),
        ensures
            call@ == (CallView {
                symbol: Symbol::GtkFileChooserSelectFilename,
                args: seq![ArgView::Pointer(self.addr()), ArgView::Str(filename.spec_bytes())],
            }),
    ;

    /// The call that takes `filename` out of the chosen files.
    fn unselect_filename(&self, filename: &str) -> (call: Call)
        requires
            !has_nul(filename.spec_bytes()),
        ensures
            call@ == (CallView {
                symbol: Symbol::GtkFileChooserUnselectFilename,
                args: seq![ArgView::Pointer(self.addr()), ArgView::Str(filename.spec_bytes())],
            }),
    ;

    /// The call that chooses every file of the folder.
    fn select_all(&self) -> (call: Call)
        ensures
            call@ == (CallView {
                symbol: Symbol::GtkFileChooserSelectAll,
                args: seq![ArgView::Pointer(self.addr())],
            }),
    ;

    /// The call that chooses no file.
    fn unselect_all(&self) -> (call: Call)
        ensures
            call@ == (CallView {
                symbol: Symbol::GtkFileChooserUnselectAll,
                args: seq![ArgView::Pointer(self.addr())],
            }),
    ;

    /// The call that asks for the chosen files; it returns a list of strings,
    /// which
    /// [`from_glib_container`](crate::glib::translate::from_glib_container)
    /// copies.
    fn get_filenames(&self) -> (call: Call)
        ensures
            call@ == (CallView {
                symbol: Symbol::GtkFileChooserGetFilenames,
                args: seq![ArgView::Pointer(self.addr())],
            }),
    ;

    /// The call that makes `filename` the folder that is shown; it returns a
    /// truth value.
    fn set_current_folder(&self, filename: &str) -> (call: Call)
        requires
            !has_nul(filename.spec_bytes()),
        ensures
            call@ == (CallView {
                symbol: Symbol::GtkFileChooserSetCurrentFolder,
                args: seq![ArgView::Pointer(self.addr()), ArgView::Str(filename.spec_bytes())],
            }),
    ;

    /// The call that asks for the folder that is shown; it returns a string.
    fn get_current_folder(&self) -> (call: Call)
        ensures
            call@ == (CallView {
                symbol: Symbol::GtkFileChooserGetCurrentFolder,
                args: seq![ArgView::Pointer(self.addr())],
            }),
    ;

    /// The call that makes `uri` the chosen file; it returns a truth value.
    fn set_uri(&self, uri: &str) -> (call: Call)
        requires
            !has_nul(uri.spec_bytes()),
        ensures
            call@ == (CallView {
                symbol: Symbol::GtkFileChooserSetUri,
                args: seq![ArgView::Pointer(self.addr()), ArgView::Str(uri.spec_bytes())],
            }),
    ;

    /// The call that asks for the chosen file as a URI; it returns a string.
    fn get_uri(&self) -> (call: Call)
        ensures
            call@ == (CallView {
                symbol: Symbol::GtkFileChooserGetUri,
                args: seq![ArgView::Pointer(self.addr())],
            }),
    ;

    /// The call that adds `uri` to the chosen files; it returns a truth value.
    fn select_uri(&self, uri: &str) -> (call: Call)
        requires
            !has_nul(uri.spec_bytes()),
        ensures
            call@ == (CallView {
                symbol: Symbol::GtkFileChooserSelectUri,
                args: seq![ArgView::Pointer(self.addr()), ArgView::Str(uri.spec_bytes())],
            }),
    ;

    /// The call that takes `uri` out of the chosen files.
    fn unselect_uri(&self, uri: &str) -> (call: Call)
        requires
            !has_nul(uri.spec_bytes()),
        ensures
            call@ == (CallView {
                symbol: Symbol::GtkFileChooserUnselectUri,
                args: seq![ArgView::Pointer(self.addr()), ArgView::Str(uri.spec_bytes())],
            }),
    ;

    /// The call that asks for the chosen files as URIs; it returns a list of
    /// strings, which
    /// [`from_glib_container`](crate::glib::translate::from_glib_container)
    /// copies.
    fn get_uris(&self) -> (call: Call)
        ensures
            call@ == (CallView {
                symbol: Symbol::GtkFileChooserGetUris,
                args: seq![ArgView::Pointer(self.addr())],
            }),
    ;

    /// The call that makes `uri` the folder that is shown; it returns a truth
    /// value.
    fn set_current_folder_uri(&self, uri: &str) -> (call: Call)
        requires
            !has_nul(uri.spec_bytes()),
        ensures
            call@ == (CallView {
                symbol: Symbol::GtkFileChooserSetCurrentFolderUri,
                args: seq![ArgView::Pointer(self.addr()), ArgView::Str(uri.spec_bytes())],
            }),
    ;

    /// The call that asks for the folder that is shown as a URI; it returns a
    /// string.
    fn get_current_folder_uri(&self) -> (call: Call)
        ensures
            call@ == (CallView {
                symbol: Symbol::GtkFileChooserGetCurrentFolderUri,
                args: seq![ArgView::Pointer(self.addr())],
            }),
    ;

    /// The call that sets whether the preview widget is shown.
    fn set_preview_widget_active(&self, active: bool) -> (call: Call)
        ensures
            call@ == (CallView {
                symbol: Symbol::GtkFileChooserSetPreviewWidgetActive,
                args: seq![ArgView::Pointer(self.addr()), ArgView::Int(spec_to_gboolean(active))],
            }),
    ;

    /// The call that asks whether the preview widget is shown; it returns a
    /// truth value.
    fn get_preview_widget_active(&self) -> (call: Call)
        ensures
            call@ == (CallView {
                symbol: Symbol::GtkFileChooserGetPreviewWidgetActive,
                args: seq![ArgView::Pointer(self.addr())],
            }),
    ;

    /// The call that sets whether the chooser shows the name of the previewed
    /// file.
    fn set_use_preview_label(&self, use_label: bool) -> (call: Call)
        ensures
            call@ == (CallView {
                symbol: Symbol::GtkFileChooserSetUsePreviewLabel,
                args: seq![
                    ArgView::Pointer(self.addr()),
                    ArgView::Int(spec_to_gboolean(use_label)),
                ],
            }),
    ;

    /// The call that asks whether the chooser shows the name of the previewed
    /// file; it returns a truth value.
    fn get_use_preview_label(&self) -> (call: Call)
        ensures
            call@ == (CallView {
                symbol: Symbol::GtkFileChooserGetUsePreviewLabel,
                args: seq![ArgView::Pointer(self.addr())],
            }),
    ;

    /// The call that asks for the file that is previewed; it returns a string.
    fn get_preview_filename(&self) -> (call: Call)
        ensures
            call@ == (CallView {
                symbol: Symbol::GtkFileChooserGetPreviewFilename,
                args: seq![ArgView::Pointer(self.addr())],
            }),
    ;

    /// The call that asks for the file that is previewed as a URI; it returns a
    /// string.
    fn get_preview_uri(&self) -> (call: Call)
        ensures
            call@ == (CallView {
                symbol: Symbol::GtkFileChooserGetPreviewUri,
                args: seq![ArgView::Pointer(self.addr())],
            }),
    ;

    /// The call that adds `folder` to the shortcuts; it returns a truth value,
    /// and on failure puts an error record into the slot of `error`.
    fn add_shortcut_folder(&self, folder: &str, error: &Error) -> (call: Call)
        requires
            !has_nul(folder.spec_bytes()),
        ensures
            call@ == (CallView {
                symbol: Symbol::GtkFileChooserAddShortcutFolder,
                args: seq![
                    ArgView::Pointer(self.addr()),
                    ArgView::Str(folder.spec_bytes()),
                    ArgView::Pointer(error.addr()),
                ],
            }),
    ;

    /// The call that takes `folder` out of the shortcuts; it returns a truth
    /// value, and on failure puts an error record into the slot of `error`.
    fn remove_shortcut_folder(&self, folder: &str, error: &Error) -> (call: Call)
        requires
            !has_nul(folder.spec_bytes()),
        ensures
            call@ == (CallView {
                symbol: Symbol::GtkFileChooserRemoveShortcutFolder,
                args: seq![
                    ArgView::Pointer(self.addr()),
                    ArgView::Str(folder.spec_bytes()),
                    ArgView::Pointer(error.addr()),
                ],
            }),
    ;

    /// The call that adds `uri` to the shortcuts; it returns a truth value, and
    /// on failure puts an error record into the slot of `error`.
    fn add_shortcut_folder_uri(&self, uri: &str, error: &Error) -> (call: Call)
        requires
            !has_nul(uri.spec_bytes()),
        ensures
            call@ == (CallView {
                symbol: Symbol::GtkFileChooserAddShortcutFolderUri,
                args: seq![
                    ArgView::Pointer(self.addr()),
                    ArgView::Str(uri.spec_bytes()),
                    ArgView::Pointer(error.addr()),
                ],
            }),
    ;

    /// The call that takes `uri` out of the shortcuts; it returns a truth
    /// value, and on failure puts an error record into the slot of `error`.
    fn remove_shortcut_folder_uri(&self, uri: &str, error: &Error) -> (call: Call)
        requires
            !has_nul(uri.spec_bytes()),
        ensures
            call@ == (CallView {
                symbol: Symbol::GtkFileChooserRemoveShortcutFolderUri,
                args: seq![
                    ArgView::Pointer(self.addr()),
                    ArgView::Str(uri.spec_bytes()),
                    ArgView::Pointer(error.addr()),
                ],
            }),
    ;
}

impl<T: AsPtr> FileChooserTrait for T where T::Inner: IsA<C_GtkFileChooser> {
    fn set_action(&self, action: FileChooserAction) -> (call: Call) {
        let target: ConstPtr<C_GtkFileChooser> = self.as_ptr().cast();
        Call::binary(
            Symbol::GtkFileChooserSetAction,
            Arg::Pointer(target.addr),
            Arg::Int(action.to_glib()),
        )
    }

    fn get_action(&self) -> (call: Call) {
        let target: ConstPtr<C_GtkFileChooser> = self.as_ptr().cast();
        Call::unary(Symbol::GtkFileChooserGetAction, Arg::Pointer(target.addr))
    }

    fn set_local_only(&self, local_only: bool) -> (call: Call) {
        let target: ConstPtr<C_GtkFileChooser> = self.as_ptr().cast();
        Call::binary(
            Symbol::GtkFileChooserSetLocalOnly,
            Arg::Pointer(target.addr),
            Arg::Int(to_gboolean(local_only)),
        )
    }

    fn get_local_only(&self) -> (call: Call) {
        let target: ConstPtr<C_GtkFileChooser> = self.as_ptr().cast();
        Call::unary(Symbol::GtkFileChooserGetLocalOnly, Arg::Pointer(target.addr))
    }

    fn set_select_multiple(&self, select_multiple: bool) -> (call: Call) {
        let target: ConstPtr<C_GtkFileChooser> = self.as_ptr().cast();
        Call::binary(
            Symbol::GtkFileChooserSetSelectMultiple,
            Arg::Pointer(target.addr),
            Arg::Int(to_gboolean(select_multiple)),
        )
    }

    fn get_select_multiple(&self) -> (call: Call) {
        let target: ConstPtr<C_GtkFileChooser> = self.as_ptr().cast();
        Call::unary(Symbol::GtkFileChooserGetSelectMultiple, Arg::Pointer(target.addr))
    }

    fn set_show_hidden(&self, show_hidden: bool) -> (call: Call) {
        let target: ConstPtr<C_GtkFileChooser> = self.as_ptr().cast();
        Call::binary(
            Symbol::GtkFileChooserSetShowHidden,
            Arg::Pointer(target.addr),
            Arg::Int(to_gboolean(show_hidden)),
        )
    }

    fn get_show_hidden(&self) -> (call: Call) {
        let target: ConstPtr<C_GtkFileChooser> = self.as_ptr().cast();
        Call::unary(Symbol::GtkFileChooserGetShowHidden, Arg::Pointer(target.addr))
    }

    fn set_do_overwrite_confirmation(&self, do_overwrite_confirmation: bool) -> (call: Call) {
        let target: ConstPtr<C_GtkFileChooser> = self.as_ptr().cast();
        Call::binary(
            Symbol::GtkFileChooserSetDoOverwriteConfirmation,
            Arg::Pointer(target.addr),
            Arg::Int(to_gboolean(do_overwrite_confirmation)),
        )
    }

    fn get_do_overwrite_confirmation(&self) -> (call: Call) {
        let target: ConstPtr<C_GtkFileChooser> = self.as_ptr().cast();
        Call::unary(Symbol::GtkFileChooserGetDoOverwriteConfirmation, Arg::Pointer(target.addr))
    }

    fn set_create_folders(&self, create_folders: bool) -> (call: Call) {
        let target: ConstPtr<C_GtkFileChooser> = self.as_ptr().cast();
        Call::binary(
            Symbol::GtkFileChooserSetCreateFolders,
            Arg::Pointer(target.addr),
            Arg::Int(to_gboolean(create_folders)),
        )
    }

    fn get_create_folders(&self) -> (call: Call) {
        let target: ConstPtr<C_GtkFileChooser> = self.as_ptr().cast();
        Call::unary(Symbol::GtkFileChooserGetCreateFolders, Arg::Pointer(target.addr))
    }

    fn set_current_name(&self, name: &str) -> (call: Call) {
        let target: ConstPtr<C_GtkFileChooser> = self.as_ptr().cast();
        Call::binary(
            Symbol::GtkFileChooserSetCurrentName,
            Arg::Pointer(target.addr),
            Arg::Str(CStrBuf::from_str(name)),
        )
    }

    fn get_current_name(&self) -> (call: Call) {
        let target: ConstPtr<C_GtkFileChooser> = self.as_ptr().cast();
        Call::unary(Symbol::GtkFileChooserGetCurrentName, Arg::Pointer(target.addr))
    }

    fn set_filename(&self, filename: &str) -> (call: Call) {
        let target: ConstPtr<C_GtkFileChooser> = self.as_ptr().cast();
        Call::binary(
            Symbol::GtkFileChooserSetFilename,
            Arg::Pointer(target.addr),
            Arg::Str(CStrBuf::from_str(filename)),
        )
    }

    fn get_filename(&self) -> (call: Call) {
        let target: ConstPtr<C_GtkFileChooser> = self.as_ptr().cast();
        Call::unary(Symbol::GtkFileChooserGetFilename, Arg::Pointer(target.addr))
    }

    fn select_filename(&self, filename: &str) -> (call: Call) {
        let target: ConstPtr<C_GtkFileChooser> = self.as_ptr().cast();
        Call::binary(
            Symbol::GtkFileChooserSelectFilename,
            Arg::Pointer(target.addr),
            Arg::Str(CStrBuf::from_str(filename)),
        )
    }

    fn unselect_filename(&self, filename: &str) -> (call: Call) {
        let target: ConstPtr<C_GtkFileChooser> = self.as_ptr().cast();
        Call::binary(
            Symbol::GtkFileChooserUnselectFilename,
            Arg::Pointer(target.addr),
            Arg::Str(CStrBuf::from_str(filename)),
        )
    }

    fn select_all(&self) -> (call: Call) {
        let target: ConstPtr<C_GtkFileChooser> = self.as_ptr().cast();
        Call::unary(Symbol::GtkFileChooserSelectAll, Arg::Pointer(target.addr))
    }

    fn unselect_all(&self) -> (call: Call) {
        let target: ConstPtr<C_GtkFileChooser> = self.as_ptr().cast();
        Call::unary(Symbol::GtkFileChooserUnselectAll, Arg::Pointer(target.addr))
    }

    fn get_filenames(&self) -> (call: Call) {
        let target: ConstPtr<C_GtkFileChooser> = self.as_ptr().cast();
        Call::unary(Symbol::GtkFileChooserGetFilenames, Arg::Pointer(target.addr))
    }

    fn set_current_folder(&self, filename: &str) -> (call: Call) {
        let target: ConstPtr<C_GtkFileChooser> = self.as_ptr().cast();
        Call::binary(
            Symbol::GtkFileChooserSetCurrentFolder,
            Arg::Pointer(target.addr),
            Arg::Str(CStrBuf::from_str(filename)),
        )
    }

    fn get_current_folder(&self) -> (call: Call) {
        let target: ConstPtr<C_GtkFileChooser> = self.as_ptr().cast();
        Call::unary(Symbol::GtkFileChooserGetCurrentFolder, Arg::Pointer(target.addr))
    }

    fn set_uri(&self, uri: &str) -> (call: Call) {
        let target: ConstPtr<C_GtkFileChooser> = self.as_ptr().cast();
        Call::binary(
            Symbol::GtkFileChooserSetUri,
            Arg::Pointer(target.addr),
            Arg::Str(CStrBuf::from_str(uri)),
        )
    }

    fn get_uri(&self) -> (call: Call) {
        let target: ConstPtr<C_GtkFileChooser> = self.as_ptr().cast();
        Call::unary(Symbol::GtkFileChooserGetUri, Arg::Pointer(target.addr))
    }

    fn select_uri(&self, uri: &str) -> (call: Call) {
        let target: ConstPtr<C_GtkFileChooser> = self.as_ptr().cast();
        Call::binary(
            Symbol::GtkFileChooserSelectUri,
            Arg::Pointer(target.addr),
            Arg::Str(CStrBuf::from_str(uri)),
        )
    }

    fn unselect_uri(&self, uri: &str) -> (call: Call) {
        let target: ConstPtr<C_GtkFileChooser> = self.as_ptr().cast();
        Call::binary(
            Symbol::GtkFileChooserUnselectUri,
            Arg::Pointer(target.addr),
            Arg::Str(CStrBuf::from_str(uri)),
        )
    }

    fn get_uris(&self) -> (call: Call) {
        let target: ConstPtr<C_GtkFileChooser> = self.as_ptr().cast();
        Call::unary(Symbol::GtkFileChooserGetUris, Arg::Pointer(target.addr))
    }

    fn set_current_folder_uri(&self, uri: &str) -> (call: Call) {
        let target: ConstPtr<C_GtkFileChooser> = self.as_ptr().cast();
        Call::binary(
            Symbol::GtkFileChooserSetCurrentFolderUri,
            Arg::Pointer(target.addr),
            Arg::Str(CStrBuf::from_str(uri)),
        )
    }

    fn get_current_folder_uri(&self) -> (call: Call) {
        let target: ConstPtr<C_GtkFileChooser> = self.as_ptr().cast();
        Call::unary(Symbol::GtkFileChooserGetCurrentFolderUri, Arg::Pointer(target.addr))
    }

    fn set_preview_widget_active(&self, active: bool) -> (call: Call) {
        let target: ConstPtr<C_GtkFileChooser> = self.as_ptr().cast();
        Call::binary(
            Symbol::GtkFileChooserSetPreviewWidgetActive,
            Arg::Pointer(target.addr),
            Arg::Int(to_gboolean(active)),
        )
    }

    fn get_preview_widget_active(&self) -> (call: Call) {
        let target: ConstPtr<C_GtkFileChooser> = self.as_ptr().cast();
        Call::unary(Symbol::GtkFileChooserGetPreviewWidgetActive, Arg::Pointer(target.addr))
    }

    fn set_use_preview_label(&self, use_label: bool) -> (call: Call) {
        let target: ConstPtr<C_GtkFileChooser> = self.as_ptr().cast();
        Call::binary(
            Symbol::GtkFileChooserSetUsePreviewLabel,
            Arg::Pointer(target.addr),
            Arg::Int(to_gboolean(use_label)),
        )
    }

    fn get_use_preview_label(&self) -> (call: Call) {
        let target: ConstPtr<C_GtkFileChooser> = self.as_ptr().cast();
        Call::unary(Symbol::GtkFileChooserGetUsePreviewLabel, Arg::Pointer(target.addr))
    }

    fn get_preview_filename(&self) -> (call: Call) {
        let target: ConstPtr<C_GtkFileChooser> = self.as_ptr().cast();
        Call::unary(Symbol::GtkFileChooserGetPreviewFilename, Arg::Pointer(target.addr))
    }

    fn get_preview_uri(&self) -> (call: Call) {
        let target: ConstPtr<C_GtkFileChooser> = self.as_ptr().cast();
        Call::unary(Symbol::GtkFileChooserGetPreviewUri, Arg::Pointer(target.addr))
    }

    fn add_shortcut_folder(&self, folder: &str, error: &Error) -> (call: Call) {
        let target: ConstPtr<C_GtkFileChooser> = self.as_ptr().cast();
        Call::ternary(
            Symbol::GtkFileChooserAddShortcutFolder,
            Arg::Pointer(target.addr),
            Arg::Str(CStrBuf::from_str(folder)),
            Arg::Pointer(error.unwrap().addr),
        )
    }

    fn remove_shortcut_folder(&self, folder: &str, error: &Error) -> (call: Call) {
        let target: ConstPtr<C_GtkFileChooser> = self.as_ptr().cast();
        Call::ternary(
            Symbol::GtkFileChooserRemoveShortcutFolder,
            Arg::Pointer(target.addr),
            Arg::Str(CStrBuf::from_str(folder)),
            Arg::Pointer(error.unwrap().addr),
        )
    }

    fn add_shortcut_folder_uri(&self, uri: &str, error: &Error) -> (call: Call) {
        let target: ConstPtr<C_GtkFileChooser> = self.as_ptr().cast();
        Call::ternary(
            Symbol::GtkFileChooserAddShortcutFolderUri,
            Arg::Pointer(target.addr),
            Arg::Str(CStrBuf::from_str(uri)),
            Arg::Pointer(error.unwrap().addr),
        )
    }

    fn remove_shortcut_folder_uri(&self, uri: &str, error: &Error) -> (call: Call) {
        let target: ConstPtr<C_GtkFileChooser> = self.as_ptr().cast();
        Call::ternary(
            Symbol::GtkFileChooserRemoveShortcutFolderUri,
            Arg::Pointer(target.addr),
            Arg::Str(CStrBuf::from_str(uri)),
            Arg::Pointer(error.unwrap().addr),
        )
    }
}

} // verus!
