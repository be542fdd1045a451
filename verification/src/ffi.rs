//! The foreign surface: one [`Symbol`] for each C entry point that the
//! bridge uses, and [`Call`], the description of one invocation with its
//! arguments already marshalled. Nothing here allocates foreign memory,
//! changes ownership or interprets a result.

use crate::glib::translate::CStrBuf;
use crate::glib::types::ClassId;
use libc::{c_int, c_uint};
use vstd::prelude::*;

verus! {

/// One argument of a foreign call, in the representation of the C ABI.
#[derive(Debug, Clone, PartialEq, Eq)]
pub enum Arg {
    /// The address of a foreign object or record; zero is the null pointer.
    Pointer(usize),
    /// A `gint`, a `gboolean` or the value of an enumeration.
    Int(c_int),
    /// A `guint` or a set of flags.
    UInt(c_uint),
    /// A `gulong`, the identifier of a signal connection.
    ULong(u64),
    /// A nul-terminated string, owned by the call.
    Str(CStrBuf),
}

/// An argument as contracts see it: a string stands by its content.
pub enum ArgView {
    Pointer(usize),
    Int(c_int),
    UInt(c_uint),
    ULong(u64),
    Str(Seq<u8>),
}

impl View for Arg {
    type V = ArgView;

    open spec fn view(&self) -> ArgView {
        match self {
            Arg::Pointer(p) => ArgView::Pointer(*p),
            Arg::Int(i) => ArgView::Int(*i),
            Arg::UInt(u) => ArgView::UInt(*u),
            Arg::ULong(u) => ArgView::ULong(*u),
            Arg::Str(s) => ArgView::Str(s@),
        }
    }
}

/// The views of a list of arguments, in order.
pub open spec fn arg_views(args: Seq<Arg>) -> Seq<ArgView> {
    Seq::new(args.len(), |i: int| args[i]@)
}

/// One invocation of a C entry point. A call does nothing by itself: it is
/// there to be carried out.
#[must_use]
#[derive(Debug, Clone, PartialEq, Eq)]
pub struct Call {
    pub symbol: Symbol,
    pub args: Vec<Arg>,
}

/// A call as contracts see it.
pub struct CallView {
    pub symbol: Symbol,
    pub args: Seq<ArgView>,
}

impl View for Call {
    type V = CallView;

    open spec fn view(&self) -> CallView {
        CallView { symbol: self.symbol, args: arg_views(self.args@) }
    }
}

impl CallView {
    /// The address in the first argument, the object on which the entry
    /// point works; zero where the call has no such argument.
    pub open spec fn receiver(self) -> usize {
        if self.args.len() > 0 {
            match self.args[0] {
                ArgView::Pointer(p) => p,
                _ => 0,
            }
        } else {
            0
        }
    }

    /// The address in argument `i`; zero where that is no address.
    pub open spec fn pointer_at(self, i: int) -> usize {
        if 0 <= i < self.args.len() {
            match self.args[i] {
                ArgView::Pointer(p) => p,
                _ => 0,
            }
        } else {
            0
        }
    }

    /// The `guint` in argument `i`; zero where that is none.
    pub open spec fn uint_at(self, i: int) -> c_uint {
        if 0 <= i < self.args.len() {
            match self.args[i] {
                ArgView::UInt(u) => u,
                _ => 0,
            }
        } else {
            0
        }
    }

    /// The `gulong` in argument `i`; zero where that is none.
    pub open spec fn ulong_at(self, i: int) -> u64 {
        if 0 <= i < self.args.len() {
            match self.args[i] {
                ArgView::ULong(u) => u,
                _ => 0,
            }
        } else {
            0
        }
    }

    /// The content of the string in argument `i`; empty where that is no
    /// string.
    pub open spec fn string_at(self, i: int) -> Seq<u8> {
        if 0 <= i < self.args.len() {
            match self.args[i] {
                ArgView::Str(s) => s,
                _ => Seq::empty(),
            }
        } else {
            Seq::empty()
        }
    }
}

impl Call {
    /// A call without arguments.
    pub fn nullary(symbol: Symbol) -> (call: Call)
        ensures
            call@ == (CallView { symbol, args: seq![] }),
    {
        let call = Call { symbol, args: Vec::new() };
        assert(call@.args =~= seq![]);
        call
    }

    /// A call with one argument.
    pub fn unary(symbol: Symbol, a: Arg) -> (call: Call)
        ensures
            call@ == (CallView { symbol, args: seq![a@] }),
    {
        let mut args: Vec<Arg> = Vec::new();
        args.push(a);
        let call = Call { symbol, args };
        assert(call@.args =~= seq![a@]);
        call
    }

    /// A call with two arguments.
    pub fn binary(symbol: Symbol, a: Arg, b: Arg) -> (call: Call)
        ensures
            call@ == (CallView { symbol, args: seq![a@, b@] }),
    {
        let mut args: Vec<Arg> = Vec::new();
        args.push(a);
        args.push(b);
        let call = Call { symbol, args };
        assert(call@.args =~= seq![a@, b@]);
        call
    }

    /// A call with three arguments.
    pub fn ternary(symbol: Symbol, a: Arg, b: Arg, c: Arg) -> (call: Call)
        ensures
            call@ == (CallView { symbol, args: seq![a@, b@, c@] }),
    {
        let mut args: Vec<Arg> = Vec::new();
        args.push(a);
        args.push(b);
        args.push(c);
        let call = Call { symbol, args };
        assert(call@.args =~= seq![a@, b@, c@]);
        call
    }

    /// A call with four arguments.
    pub fn quaternary(symbol: Symbol, a: Arg, b: Arg, c: Arg, d: Arg) -> (call: Call)
        ensures
            call@ == (CallView { symbol, args: seq![a@, b@, c@, d@] }),
    {
        let mut args: Vec<Arg> = Vec::new();
        args.push(a);
        args.push(b);
        args.push(c);
        args.push(d);
        let call = Call { symbol, args };
        assert(call@.args =~= seq![a@, b@, c@, d@]);
        call
    }

    /// A call with the arguments of `args`, in order.
    pub fn from_args(symbol: Symbol, args: Vec<Arg>) -> (call: Call)
        ensures
            call@ == (CallView { symbol, args: arg_views(args@) }),
    {
        Call { symbol, args }
    }

    /// The address in the first argument; zero where the call has none.
    pub fn receiver(&self) -> (p: usize)
        ensures
            p == self@.receiver(),
    {
        self.pointer_at(0)
    }

    /// The address in argument `i`; zero where that is no address.
    pub fn pointer_at(&self, i: usize) -> (p: usize)
        ensures
            p == self@.pointer_at(i as int),
    {
        if i < self.args.len() {
            match &self.args[i] {
                Arg::Pointer(p) => *p,
                _ => 0,
            }
        } else {
            0
        }
    }

    /// The `guint` in argument `i`; zero where that is none.
    pub fn uint_at(&self, i: usize) -> (u: c_uint)
        ensures
            u == self@.uint_at(i as int),
    {
        if i < self.args.len() {
            match &self.args[i] {
                Arg::UInt(u) => *u,
                _ => 0,
            }
        } else {
            0
        }
    }

    /// The `gulong` in argument `i`; zero where that is none.
    pub fn ulong_at(&self, i: usize) -> (u: u64)
        ensures
            u == self@.ulong_at(i as int),
    {
        if i < self.args.len() {
            match &self.args[i] {
                Arg::ULong(u) => *u,
                _ => 0,
            }
        } else {
            0
        }
    }

    /// A copy of the content of the string in argument `i`; empty where
    /// that is no string.
    pub fn string_at(&self, i: usize) -> (s: Vec<u8>)
        ensures
            s@ == self@.string_at(i as int),
    {
        if i < self.args.len() {
            match &self.args[i] {
                Arg::Str(s) => s.to_bytes(),
                _ => Vec::new(),
            }
        } else {
            Vec::new()
        }
    }
}

/// What the foreign side hands back from a call.
#[derive(Debug, Clone, Copy, PartialEq, Eq, Structural)]
pub enum Reply {
    /// The entry point returns `void`.
    Nothing,
    /// An address; zero is the null pointer.
    Pointer(usize),
    /// A `gint`, a `gboolean` or the value of an enumeration.
    Int(c_int),
    /// A `guint`.
    UInt(c_uint),
    /// A `gulong`, the identifier of a signal connection.
    ULong(u64),
}

/// The C entry points that the bridge calls.
#[derive(Debug, Clone, Copy, PartialEq, Eq, Structural)]
pub enum Symbol {
    /// `g_object_ref_sink`
    GObjectRefSink,
    /// `g_object_ref`
    GObjectRef,
    /// `g_object_unref`
    GObjectUnref,
    /// `g_signal_connect_data`
    GSignalConnectData,
    /// `g_signal_handler_disconnect`
    GSignalHandlerDisconnect,
    /// `g_error_new_literal`
    GErrorNewLiteral,
    /// `g_error_free`
    GErrorFree,
    /// `g_error_matches`
    GErrorMatches,
    /// `g_error_copy`
    GErrorCopy,
    /// `g_set_error_literal`
    GSetErrorLiteral,
    /// `g_propagate_error`
    GPropagateError,
    /// `gtk_init`
    GtkInit,
    /// `gtk_main`
    GtkMain,
    /// `gtk_main_quit`
    GtkMainQuit,
    /// `gtk_widget_show_all`
    GtkWidgetShowAll,
    /// `gtk_container_add`
    GtkContainerAdd,
    /// `gtk_container_remove`
    GtkContainerRemove,
    /// `gtk_container_set_border_width`
    GtkContainerSetBorderWidth,
    /// `gtk_container_get_border_width`
    GtkContainerGetBorderWidth,
    /// `gtk_window_new`
    GtkWindowNew,
    /// `gtk_window_set_title`
    GtkWindowSetTitle,
    /// `gtk_window_get_title`
    GtkWindowGetTitle,
    /// `gtk_window_set_default_size`
    GtkWindowSetDefaultSize,
    /// `gtk_window_set_position`
    GtkWindowSetPosition,
    /// `gtk_button_new_with_label`
    GtkButtonNewWithLabel,
    /// `gtk_check_button_new_with_label`
    GtkCheckButtonNewWithLabel,
    /// `gtk_toggle_button_new_with_label`
    GtkToggleButtonNewWithLabel,
    /// `gtk_toggle_button_new_with_mnemonic`
    GtkToggleButtonNewWithMnemonic,
    /// `gtk_toggle_button_set_mode`
    GtkToggleButtonSetMode,
    /// `gtk_toggle_button_get_mode`
    GtkToggleButtonGetMode,
    /// `gtk_toggle_button_toggled`
    GtkToggleButtonToggled,
    /// `gtk_toggle_button_set_active`
    GtkToggleButtonSetActive,
    /// `gtk_toggle_button_get_active`
    GtkToggleButtonGetActive,
    /// `gtk_toggle_button_set_inconsistent`
    GtkToggleButtonSetInconsistent,
    /// `gtk_toggle_button_get_inconsistent`
    GtkToggleButtonGetInconsistent,
    /// `gtk_box_new`
    GtkBoxNew,
    /// `gtk_label_new`
    GtkLabelNew,
    /// `gtk_image_new_from_file`
    GtkImageNewFromFile,
    /// `gtk_fixed_new`
    GtkFixedNew,
    /// `gtk_fixed_put`
    GtkFixedPut,
    /// `gtk_fixed_move`
    GtkFixedMove,
    /// `gtk_paned_new`
    GtkPanedNew,
    /// `gtk_paned_add1`
    GtkPanedAdd1,
    /// `gtk_paned_add2`
    GtkPanedAdd2,
    /// `gtk_paned_pack1`
    GtkPanedPack1,
    /// `gtk_paned_pack2`
    GtkPanedPack2,
    /// `gtk_paned_set_position`
    GtkPanedSetPosition,
    /// `gtk_paned_get_position`
    GtkPanedGetPosition,
    /// `gtk_toolbar_new`
    GtkToolbarNew,
    /// `gtk_toolbar_insert`
    GtkToolbarInsert,
    /// `gtk_toolbar_get_nth_item`
    GtkToolbarGetNthItem,
    /// `gtk_toolbar_set_show_arrow`
    GtkToolbarSetShowArrow,
    /// `gtk_toolbar_get_show_arrow`
    GtkToolbarGetShowArrow,
    /// `gtk_tool_item_new`
    GtkToolItemNew,
    /// `gtk_tool_button_new`
    GtkToolButtonNew,
    /// `gtk_tool_button_new_from_stock`
    GtkToolButtonNewFromStock,
    /// `gtk_menu_tool_button_new`
    GtkMenuToolButtonNew,
    /// `gtk_menu_tool_button_new_from_stock`
    GtkMenuToolButtonNewFromStock,
    /// `gtk_menu_tool_button_set_arrow_tooltip_text`
    GtkMenuToolButtonSetArrowTooltipText,
    /// `gtk_menu_tool_button_set_arrow_tooltip_markup`
    GtkMenuToolButtonSetArrowTooltipMarkup,
    /// `gtk_toggle_tool_button_new`
    GtkToggleToolButtonNew,
    /// `gtk_toggle_tool_button_new_from_stock`
    GtkToggleToolButtonNewFromStock,
    /// `gtk_scale_button_new`
    GtkScaleButtonNew,
    /// `gtk_spin_button_new_with_range`
    GtkSpinButtonNewWithRange,
    /// `gtk_spin_button_set_digits`
    GtkSpinButtonSetDigits,
    /// `gtk_spin_button_get_digits`
    GtkSpinButtonGetDigits,
    /// `gtk_spin_button_get_value_as_int`
    GtkSpinButtonGetValueAsInt,
    /// `gtk_spin_button_set_numeric`
    GtkSpinButtonSetNumeric,
    /// `gtk_spin_button_get_numeric`
    GtkSpinButtonGetNumeric,
    /// `gtk_spin_button_set_wrap`
    GtkSpinButtonSetWrap,
    /// `gtk_spin_button_get_wrap`
    GtkSpinButtonGetWrap,
    /// `gtk_spin_button_set_snap_to_ticks`
    GtkSpinButtonSetSnapToTicks,
    /// `gtk_spin_button_get_snap_to_ticks`
    GtkSpinButtonGetSnapToTicks,
    /// `gtk_spin_button_update`
    GtkSpinButtonUpdate,
    /// `gtk_dialog_new`
    GtkDialogNew,
    /// `gtk_dialog_new_with_buttons`
    GtkDialogNewWithButtons,
    /// `gtk_dialog_run`
    GtkDialogRun,
    /// `gtk_dialog_response`
    GtkDialogResponse,
    /// `gtk_dialog_add_button`
    GtkDialogAddButton,
    /// `gtk_dialog_add_action_widget`
    GtkDialogAddActionWidget,
    /// `gtk_dialog_set_default_response`
    GtkDialogSetDefaultResponse,
    /// `gtk_dialog_set_response_sensitive`
    GtkDialogSetResponseSensitive,
    /// `gtk_dialog_get_response_for_widget`
    GtkDialogGetResponseForWidget,
    /// `gtk_dialog_get_widget_for_response`
    GtkDialogGetWidgetForResponse,
    /// `gtk_dialog_get_action_area`
    GtkDialogGetActionArea,
    /// `gtk_dialog_get_content_area`
    GtkDialogGetContentArea,
    /// `gtk_dialog_get_header_bar`
    GtkDialogGetHeaderBar,
    /// `gtk_message_dialog_new`
    GtkMessageDialogNew,
    /// `gtk_message_dialog_set_markup`
    GtkMessageDialogSetMarkup,
    /// `gtk_message_dialog_get_message_area`
    GtkMessageDialogGetMessageArea,
    /// `gtk_about_dialog_new`
    GtkAboutDialogNew,
    /// `gtk_app_chooser_dialog_new_for_content_type`
    GtkAppChooserDialogNewForContentType,
    /// `gtk_color_chooser_dialog_new`
    GtkColorChooserDialogNew,
    /// `gtk_file_chooser_dialog_new`
    GtkFileChooserDialogNew,
    /// `gtk_font_chooser_dialog_new`
    GtkFontChooserDialogNew,
    /// `gtk_recent_chooser_dialog_new`
    GtkRecentChooserDialogNew,
    /// `gtk_recent_chooser_dialog_new_for_manager`
    GtkRecentChooserDialogNewForManager,
    /// `gtk_text_mark_new`
    GtkTextMarkNew,
    /// `gtk_text_mark_set_visible`
    GtkTextMarkSetVisible,
    /// `gtk_text_mark_get_visible`
    GtkTextMarkGetVisible,
    /// `gtk_text_mark_get_name`
    GtkTextMarkGetName,
    /// `gtk_text_mark_get_deleted`
    GtkTextMarkGetDeleted,
    /// `gtk_text_mark_get_left_gravity`
    GtkTextMarkGetLeftGravity,
    /// `gtk_toolbar_get_item_index`
    GtkToolbarGetItemIndex,
    /// `gtk_toolbar_get_n_items`
    GtkToolbarGetNItems,
    /// `gtk_toolbar_get_drop_index`
    GtkToolbarGetDropIndex,
    /// `gtk_toolbar_set_drop_highlight_item`
    GtkToolbarSetDropHighlightItem,
    /// `gtk_toolbar_unset_icon_size`
    GtkToolbarUnsetIconSize,
    /// `gtk_toolbar_unset_style`
    GtkToolbarUnsetStyle,
    /// `gtk_toolbar_get_style`
    GtkToolbarGetStyle,
    /// `gtk_toolbar_get_icon_size`
    GtkToolbarGetIconSize,
    /// `gtk_toolbar_get_relief_style`
    GtkToolbarGetReliefStyle,
    /// `gtk_paned_get_handle_window`
    GtkPanedGetHandleWindow,
    /// `gtk_tree_model_get_flags`
    GtkTreeModelGetFlags,
    /// `gtk_tree_model_get_n_columns`
    GtkTreeModelGetNColumns,
    /// `gtk_tree_model_get_column_type`
    GtkTreeModelGetColumnType,
    /// `gtk_orientable_get_orientation`
    GtkOrientableGetOrientation,
    /// `gtk_orientable_set_orientation`
    GtkOrientableSetOrientation,
    /// `gtk_color_chooser_get_use_alpha`
    GtkColorChooserGetUseAlpha,
    /// `gtk_color_chooser_set_use_alpha`
    GtkColorChooserSetUseAlpha,
    /// `gtk_combo_box_get_wrap_width`
    GtkComboBoxGetWrapWidth,
    /// `gtk_combo_box_set_wrap_width`
    GtkComboBoxSetWrapWidth,
    /// `gtk_combo_box_get_row_span_column`
    GtkComboBoxGetRowSpanColumn,
    /// `gtk_combo_box_set_row_span_column`
    GtkComboBoxSetRowSpanColumn,
    /// `gtk_combo_box_get_column_span_column`
    GtkComboBoxGetColumnSpanColumn,
    /// `gtk_combo_box_set_column_span_column`
    GtkComboBoxSetColumnSpanColumn,
    /// `gtk_combo_box_get_active`
    GtkComboBoxGetActive,
    /// `gtk_combo_box_set_active`
    GtkComboBoxSetActive,
    /// `gtk_combo_box_get_id_column`
    GtkComboBoxGetIdColumn,
    /// `gtk_combo_box_set_id_column`
    GtkComboBoxSetIdColumn,
    /// `gtk_combo_box_get_active_id`
    GtkComboBoxGetActiveId,
    /// `gtk_combo_box_set_active_id`
    GtkComboBoxSetActiveId,
    /// `gtk_combo_box_get_model`
    GtkComboBoxGetModel,
    /// `gtk_combo_box_popup`
    GtkComboBoxPopup,
    /// `gtk_combo_box_popdown`
    GtkComboBoxPopdown,
    /// `gtk_combo_box_get_focus_on_click`
    GtkComboBoxGetFocusOnClick,
    /// `gtk_combo_box_set_focus_on_click`
    GtkComboBoxSetFocusOnClick,
    /// `gtk_combo_box_get_has_entry`
    GtkComboBoxGetHasEntry,
    /// `gtk_combo_box_set_entry_text_column`
    GtkComboBoxSetEntryTextColumn,
    /// `gtk_combo_box_get_entry_text_column`
    GtkComboBoxGetEntryTextColumn,
    /// `gtk_combo_box_set_popup_fixed_width`
    GtkComboBoxSetPopupFixedWidth,
    /// `gtk_combo_box_get_popup_fixed_width`
    GtkComboBoxGetPopupFixedWidth,
    /// `gtk_file_chooser_set_action`
    GtkFileChooserSetAction,
    /// `gtk_file_chooser_get_action`
    GtkFileChooserGetAction,
    /// `gtk_file_chooser_set_local_only`
    GtkFileChooserSetLocalOnly,
    /// `gtk_file_chooser_get_local_only`
    GtkFileChooserGetLocalOnly,
    /// `gtk_file_chooser_set_select_multiple`
    GtkFileChooserSetSelectMultiple,
    /// `gtk_file_chooser_get_select_multiple`
    GtkFileChooserGetSelectMultiple,
    /// `gtk_file_chooser_set_show_hidden`
    GtkFileChooserSetShowHidden,
    /// `gtk_file_chooser_get_show_hidden`
    GtkFileChooserGetShowHidden,
    /// `gtk_file_chooser_set_do_overwrite_confirmation`
    GtkFileChooserSetDoOverwriteConfirmation,
    /// `gtk_file_chooser_get_do_overwrite_confirmation`
    GtkFileChooserGetDoOverwriteConfirmation,
    /// `gtk_file_chooser_set_create_folders`
    GtkFileChooserSetCreateFolders,
    /// `gtk_file_chooser_get_create_folders`
    GtkFileChooserGetCreateFolders,
    /// `gtk_file_chooser_set_current_name`
    GtkFileChooserSetCurrentName,
    /// `gtk_file_chooser_get_current_name`
    GtkFileChooserGetCurrentName,
    /// `gtk_file_chooser_set_filename`
    GtkFileChooserSetFilename,
    /// `gtk_file_chooser_get_filename`
    GtkFileChooserGetFilename,
    /// `gtk_file_chooser_select_filename`
    GtkFileChooserSelectFilename,
    /// `gtk_file_chooser_unselect_filename`
    GtkFileChooserUnselectFilename,
    /// `gtk_file_chooser_select_all`
    GtkFileChooserSelectAll,
    /// `gtk_file_chooser_unselect_all`
    GtkFileChooserUnselectAll,
    /// `gtk_file_chooser_get_filenames`
    GtkFileChooserGetFilenames,
    /// `gtk_file_chooser_set_current_folder`
    GtkFileChooserSetCurrentFolder,
    /// `gtk_file_chooser_get_current_folder`
    GtkFileChooserGetCurrentFolder,
    /// `gtk_file_chooser_set_uri`
    GtkFileChooserSetUri,
    /// `gtk_file_chooser_get_uri`
    GtkFileChooserGetUri,
    /// `gtk_file_chooser_select_uri`
    GtkFileChooserSelectUri,
    /// `gtk_file_chooser_unselect_uri`
    GtkFileChooserUnselectUri,
    /// `gtk_file_chooser_get_uris`
    GtkFileChooserGetUris,
    /// `gtk_file_chooser_set_current_folder_uri`
    GtkFileChooserSetCurrentFolderUri,
    /// `gtk_file_chooser_get_current_folder_uri`
    GtkFileChooserGetCurrentFolderUri,
    /// `gtk_file_chooser_set_preview_widget_active`
    GtkFileChooserSetPreviewWidgetActive,
    /// `gtk_file_chooser_get_preview_widget_active`
    GtkFileChooserGetPreviewWidgetActive,
    /// `gtk_file_chooser_set_use_preview_label`
    GtkFileChooserSetUsePreviewLabel,
    /// `gtk_file_chooser_get_use_preview_label`
    GtkFileChooserGetUsePreviewLabel,
    /// `gtk_file_chooser_get_preview_filename`
    GtkFileChooserGetPreviewFilename,
    /// `gtk_file_chooser_get_preview_uri`
    GtkFileChooserGetPreviewUri,
    /// `gtk_file_chooser_add_shortcut_folder`
    GtkFileChooserAddShortcutFolder,
    /// `gtk_file_chooser_remove_shortcut_folder`
    GtkFileChooserRemoveShortcutFolder,
    /// `gtk_file_chooser_add_shortcut_folder_uri`
    GtkFileChooserAddShortcutFolderUri,
    /// `gtk_file_chooser_remove_shortcut_folder_uri`
    GtkFileChooserRemoveShortcutFolderUri,
    /// `g_list_free`
    GListFree,
    /// `g_slist_free`
    GSListFree,
    /// `g_free`
    GFree,
    /// `glue_signal_connect`
    GlueSignalConnect,
    /// `gtk_grid_new`
    GtkGridNew,
    /// `gtk_grid_attach`
    GtkGridAttach,
    /// `gtk_grid_attach_next_to`
    GtkGridAttachNextTo,
    /// `gtk_grid_insert_row`
    GtkGridInsertRow,
    /// `gtk_grid_insert_column`
    GtkGridInsertColumn,
    /// `gtk_grid_remove_row`
    GtkGridRemoveRow,
    /// `gtk_grid_remove_column`
    GtkGridRemoveColumn,
    /// `gtk_grid_insert_next_to`
    GtkGridInsertNextTo,
    /// `gtk_grid_set_row_homogeneous`
    GtkGridSetRowHomogeneous,
    /// `gtk_grid_get_row_homogeneous`
    GtkGridGetRowHomogeneous,
    /// `gtk_grid_set_row_spacing`
    GtkGridSetRowSpacing,
    /// `gtk_grid_get_row_spacing`
    GtkGridGetRowSpacing,
    /// `gtk_grid_set_column_homogeneous`
    GtkGridSetColumnHomogeneous,
    /// `gtk_grid_get_column_homogeneous`
    GtkGridGetColumnHomogeneous,
    /// `gtk_grid_set_column_spacing`
    GtkGridSetColumnSpacing,
    /// `gtk_grid_get_column_spacing`
    GtkGridGetColumnSpacing,
    /// `gtk_grid_get_baseline_row`
    GtkGridGetBaselineRow,
    /// `gtk_grid_set_baseline_row`
    GtkGridSetBaselineRow,
    /// `gtk_radio_button_new`
    GtkRadioButtonNew,
    /// `gtk_radio_button_new_with_label`
    GtkRadioButtonNewWithLabel,
    /// `gtk_radio_button_new_with_mnemonic`
    GtkRadioButtonNewWithMnemonic,
    /// `gtk_radio_button_join_group`
    GtkRadioButtonJoinGroup,
    /// `gtk_frame_new`
    GtkFrameNew,
    /// `gtk_overlay_new`
    GtkOverlayNew,
    /// `gtk_overlay_add_overlay`
    GtkOverlayAddOverlay,
    /// `gtk_font_chooser_widget_new`
    GtkFontChooserWidgetNew,
    /// `gtk_menu_bar_new`
    GtkMenuBarNew,
    /// `gtk_menu_bar_set_pack_direction`
    GtkMenuBarSetPackDirection,
    /// `gtk_menu_bar_get_pack_direction`
    GtkMenuBarGetPackDirection,
    /// `gtk_menu_bar_set_child_pack_direction`
    GtkMenuBarSetChildPackDirection,
    /// `gtk_menu_bar_get_child_pack_direction`
    GtkMenuBarGetChildPackDirection,
    /// `gtk_volume_button_new`
    GtkVolumeButtonNew,
    /// `gtk_color_button_new`
    GtkColorButtonNew,
    /// `gtk_color_button_set_alpha`
    GtkColorButtonSetAlpha,
    /// `gtk_color_button_get_alpha`
    GtkColorButtonGetAlpha,
    /// `gtk_color_button_set_use_alpha`
    GtkColorButtonSetUseAlpha,
    /// `gtk_color_button_get_use_alpha`
    GtkColorButtonGetUseAlpha,
    /// `gtk_color_button_set_title`
    GtkColorButtonSetTitle,
    /// `gtk_color_button_get_title`
    GtkColorButtonGetTitle,
    /// `gtk_paper_size_new`
    GtkPaperSizeNew,
    /// `gtk_paper_size_get_default`
    GtkPaperSizeGetDefault,
    /// `gtk_paper_size_get_paper_sizes`
    GtkPaperSizeGetPaperSizes,
    /// `gtk_paper_size_copy`
    GtkPaperSizeCopy,
    /// `gtk_paper_size_is_equal`
    GtkPaperSizeIsEqual,
    /// `gtk_paper_size_get_name`
    GtkPaperSizeGetName,
    /// `gtk_paper_size_get_display_name`
    GtkPaperSizeGetDisplayName,
    /// `gtk_paper_size_get_ppd_name`
    GtkPaperSizeGetPpdName,
    /// `gtk_paper_size_is_custom`
    GtkPaperSizeIsCustom,
    /// `gtk_about_dialog_get_program_name`
    GtkAboutDialogGetProgramName,
    /// `gtk_about_dialog_set_program_name`
    GtkAboutDialogSetProgramName,
    /// `gtk_about_dialog_get_version`
    GtkAboutDialogGetVersion,
    /// `gtk_about_dialog_set_version`
    GtkAboutDialogSetVersion,
    /// `gtk_about_dialog_get_copyright`
    GtkAboutDialogGetCopyright,
    /// `gtk_about_dialog_set_copyright`
    GtkAboutDialogSetCopyright,
    /// `gtk_about_dialog_get_comments`
    GtkAboutDialogGetComments,
    /// `gtk_about_dialog_set_comments`
    GtkAboutDialogSetComments,
    /// `gtk_about_dialog_get_license`
    GtkAboutDialogGetLicense,
    /// `gtk_about_dialog_set_license`
    GtkAboutDialogSetLicense,
    /// `gtk_about_dialog_get_website`
    GtkAboutDialogGetWebsite,
    /// `gtk_about_dialog_set_website`
    GtkAboutDialogSetWebsite,
    /// `gtk_about_dialog_get_website_label`
    GtkAboutDialogGetWebsiteLabel,
    /// `gtk_about_dialog_set_website_label`
    GtkAboutDialogSetWebsiteLabel,
    /// `gtk_about_dialog_get_translator_credits`
    GtkAboutDialogGetTranslatorCredits,
    /// `gtk_about_dialog_set_translator_credits`
    GtkAboutDialogSetTranslatorCredits,
    /// `gtk_about_dialog_get_logo_icon_name`
    GtkAboutDialogGetLogoIconName,
    /// `gtk_about_dialog_set_logo_icon_name`
    GtkAboutDialogSetLogoIconName,
    /// `gtk_about_dialog_get_wrap_license`
    GtkAboutDialogGetWrapLicense,
    /// `gtk_about_dialog_set_wrap_license`
    GtkAboutDialogSetWrapLicense,
    /// `gtk_about_dialog_get_authors`
    GtkAboutDialogGetAuthors,
    /// `gtk_about_dialog_get_artists`
    GtkAboutDialogGetArtists,
    /// `gtk_about_dialog_get_documenters`
    GtkAboutDialogGetDocumenters,
    /// `gtk_button_pressed`
    GtkButtonPressed,
    /// `gtk_button_released`
    GtkButtonReleased,
    /// `gtk_button_clicked`
    GtkButtonClicked,
    /// `gtk_button_enter`
    GtkButtonEnter,
    /// `gtk_button_leave`
    GtkButtonLeave,
    /// `gtk_button_set_relief`
    GtkButtonSetRelief,
    /// `gtk_button_get_relief`
    GtkButtonGetRelief,
    /// `gtk_button_get_label`
    GtkButtonGetLabel,
    /// `gtk_button_set_label`
    GtkButtonSetLabel,
    /// `gtk_button_get_use_stock`
    GtkButtonGetUseStock,
    /// `gtk_button_set_use_stock`
    GtkButtonSetUseStock,
    /// `gtk_button_get_use_underline`
    GtkButtonGetUseUnderline,
    /// `gtk_button_set_use_underline`
    GtkButtonSetUseUnderline,
    /// `gtk_button_set_focus_on_click`
    GtkButtonSetFocusOnClick,
    /// `gtk_button_get_focus_on_click`
    GtkButtonGetFocusOnClick,
    /// `gtk_button_set_image`
    GtkButtonSetImage,
    /// `gtk_button_set_image_position`
    GtkButtonSetImagePosition,
    /// `gtk_button_get_image_position`
    GtkButtonGetImagePosition,
    /// `gtk_button_set_always_show_image`
    GtkButtonSetAlwaysShowImage,
    /// `gtk_button_get_always_show_image`
    GtkButtonGetAlwaysShowImage,
    /// `gtk_toggle_button_new`
    GtkToggleButtonNew,
    /// `gtk_paper_size_free`
    GtkPaperSizeFree,
}

impl Symbol {
    /// The class of the object that a constructor returns; `None` for an
    /// entry point that creates no object.
    pub open spec fn spec_creates(self) -> Option<ClassId> {
        match self {
            Symbol::GtkWindowNew => Some(ClassId::Window),
            Symbol::GtkButtonNewWithLabel => Some(ClassId::Button),
            Symbol::GtkCheckButtonNewWithLabel => Some(ClassId::CheckButton),
            Symbol::GtkToggleButtonNewWithLabel
            | Symbol::GtkToggleButtonNewWithMnemonic
            | Symbol::GtkToggleButtonNew => Some(ClassId::ToggleButton),
            Symbol::GtkBoxNew => Some(ClassId::Box),
            Symbol::GtkLabelNew => Some(ClassId::Label),
            Symbol::GtkImageNewFromFile => Some(ClassId::Image),
            Symbol::GtkFixedNew => Some(ClassId::Fixed),
            Symbol::GtkPanedNew => Some(ClassId::Paned),
            Symbol::GtkToolbarNew => Some(ClassId::Toolbar),
            Symbol::GtkToolItemNew => Some(ClassId::ToolItem),
            Symbol::GtkToolButtonNew
            | Symbol::GtkToolButtonNewFromStock => Some(ClassId::ToolButton),
            Symbol::GtkMenuToolButtonNew
            | Symbol::GtkMenuToolButtonNewFromStock => Some(ClassId::MenuToolButton),
            Symbol::GtkToggleToolButtonNew
            | Symbol::GtkToggleToolButtonNewFromStock => Some(ClassId::ToggleToolButton),
            Symbol::GtkScaleButtonNew => Some(ClassId::ScaleButton),
            Symbol::GtkSpinButtonNewWithRange => Some(ClassId::SpinButton),
            Symbol::GtkDialogNew
            | Symbol::GtkDialogNewWithButtons => Some(ClassId::Dialog),
            Symbol::GtkMessageDialogNew => Some(ClassId::MessageDialog),
            Symbol::GtkAboutDialogNew => Some(ClassId::AboutDialog),
            Symbol::GtkAppChooserDialogNewForContentType => Some(ClassId::AppChooserDialog),
            Symbol::GtkColorChooserDialogNew => Some(ClassId::ColorChooserDialog),
            Symbol::GtkFileChooserDialogNew => Some(ClassId::FileChooserDialog),
            Symbol::GtkFontChooserDialogNew => Some(ClassId::FontChooserDialog),
            Symbol::GtkRecentChooserDialogNew
            | Symbol::GtkRecentChooserDialogNewForManager => Some(ClassId::RecentChooserDialog),
            Symbol::GtkGridNew => Some(ClassId::Grid),
            Symbol::GtkFrameNew => Some(ClassId::Frame),
            Symbol::GtkOverlayNew => Some(ClassId::Overlay),
            Symbol::GtkVolumeButtonNew => Some(ClassId::VolumeButton),
            Symbol::GtkColorButtonNew => Some(ClassId::ColorButton),
            _ => None,
        }
    }

    /// The class to which the object in the first argument must belong;
    /// `None` for an entry point that works on no object.
    pub open spec fn spec_receiver_class(self) -> Option<ClassId> {
        match self {
            Symbol::GObjectRefSink
            | Symbol::GObjectRef
            | Symbol::GObjectUnref
            | Symbol::GSignalConnectData
            | Symbol::GSignalHandlerDisconnect
            | Symbol::GlueSignalConnect => Some(ClassId::Object),
            Symbol::GtkWidgetShowAll => Some(ClassId::Widget),
            Symbol::GtkContainerAdd
            | Symbol::GtkContainerRemove
            | Symbol::GtkContainerSetBorderWidth
            | Symbol::GtkContainerGetBorderWidth => Some(ClassId::Container),
            Symbol::GtkWindowSetTitle
            | Symbol::GtkWindowGetTitle
            | Symbol::GtkWindowSetDefaultSize
            | Symbol::GtkWindowSetPosition => Some(ClassId::Window),
            Symbol::GtkToggleButtonSetMode
            | Symbol::GtkToggleButtonGetMode
            | Symbol::GtkToggleButtonToggled
            | Symbol::GtkToggleButtonSetActive
            | Symbol::GtkToggleButtonGetActive
            | Symbol::GtkToggleButtonSetInconsistent
            | Symbol::GtkToggleButtonGetInconsistent => Some(ClassId::ToggleButton),
            Symbol::GtkFixedPut
            | Symbol::GtkFixedMove => Some(ClassId::Fixed),
            Symbol::GtkPanedAdd1
            | Symbol::GtkPanedAdd2
            | Symbol::GtkPanedPack1
            | Symbol::GtkPanedPack2
            | Symbol::GtkPanedSetPosition
            | Symbol::GtkPanedGetPosition
            | Symbol::GtkPanedGetHandleWindow => Some(ClassId::Paned),
            Symbol::GtkToolbarInsert
            | Symbol::GtkToolbarGetNthItem
            | Symbol::GtkToolbarSetShowArrow
            | Symbol::GtkToolbarGetShowArrow
            | Symbol::GtkToolbarGetItemIndex
            | Symbol::GtkToolbarGetNItems
            | Symbol::GtkToolbarGetDropIndex
            | Symbol::GtkToolbarSetDropHighlightItem
            | Symbol::GtkToolbarUnsetIconSize
            | Symbol::GtkToolbarUnsetStyle
            | Symbol::GtkToolbarGetStyle
            | Symbol::GtkToolbarGetIconSize
            | Symbol::GtkToolbarGetReliefStyle => Some(ClassId::Toolbar),
            Symbol::GtkMenuToolButtonSetArrowTooltipText
            | Symbol::GtkMenuToolButtonSetArrowTooltipMarkup => Some(ClassId::MenuToolButton),
            Symbol::GtkSpinButtonSetDigits
            | Symbol::GtkSpinButtonGetDigits
            | Symbol::GtkSpinButtonGetValueAsInt
            | Symbol::GtkSpinButtonSetNumeric
            | Symbol::GtkSpinButtonGetNumeric
            | Symbol::GtkSpinButtonSetWrap
            | Symbol::GtkSpinButtonGetWrap
            | Symbol::GtkSpinButtonSetSnapToTicks
            | Symbol::GtkSpinButtonGetSnapToTicks
            | Symbol::GtkSpinButtonUpdate => Some(ClassId::SpinButton),
            Symbol::GtkDialogRun
            | Symbol::GtkDialogResponse
            | Symbol::GtkDialogAddButton
            | Symbol::GtkDialogAddActionWidget
            | Symbol::GtkDialogSetDefaultResponse
            | Symbol::GtkDialogSetResponseSensitive
            | Symbol::GtkDialogGetResponseForWidget
            | Symbol::GtkDialogGetWidgetForResponse
            | Symbol::GtkDialogGetActionArea
            | Symbol::GtkDialogGetContentArea
            | Symbol::GtkDialogGetHeaderBar => Some(ClassId::Dialog),
            Symbol::GtkMessageDialogSetMarkup
            | Symbol::GtkMessageDialogGetMessageArea => Some(ClassId::MessageDialog),
            Symbol::GtkOrientableGetOrientation
            | Symbol::GtkOrientableSetOrientation => Some(ClassId::Orientable),
            Symbol::GtkColorChooserGetUseAlpha
            | Symbol::GtkColorChooserSetUseAlpha => Some(ClassId::ColorChooser),
            Symbol::GtkComboBoxGetWrapWidth
            | Symbol::GtkComboBoxSetWrapWidth
            | Symbol::GtkComboBoxGetRowSpanColumn
            | Symbol::GtkComboBoxSetRowSpanColumn
            | Symbol::GtkComboBoxGetColumnSpanColumn
            | Symbol::GtkComboBoxSetColumnSpanColumn
            | Symbol::GtkComboBoxGetActive
            | Symbol::GtkComboBoxSetActive
            | Symbol::GtkComboBoxGetIdColumn
            | Symbol::GtkComboBoxSetIdColumn
            | Symbol::GtkComboBoxGetActiveId
            | Symbol::GtkComboBoxSetActiveId
            | Symbol::GtkComboBoxGetModel
            | Symbol::GtkComboBoxPopup
            | Symbol::GtkComboBoxPopdown
            | Symbol::GtkComboBoxGetFocusOnClick
            | Symbol::GtkComboBoxSetFocusOnClick
            | Symbol::GtkComboBoxGetHasEntry
            | Symbol::GtkComboBoxSetEntryTextColumn
            | Symbol::GtkComboBoxGetEntryTextColumn
            | Symbol::GtkComboBoxSetPopupFixedWidth
            | Symbol::GtkComboBoxGetPopupFixedWidth => Some(ClassId::ComboBox),
            Symbol::GtkFileChooserSetAction
            | Symbol::GtkFileChooserGetAction
            | Symbol::GtkFileChooserSetLocalOnly
            | Symbol::GtkFileChooserGetLocalOnly
            | Symbol::GtkFileChooserSetSelectMultiple
            | Symbol::GtkFileChooserGetSelectMultiple
            | Symbol::GtkFileChooserSetShowHidden
            | Symbol::GtkFileChooserGetShowHidden
            | Symbol::GtkFileChooserSetDoOverwriteConfirmation
            | Symbol::GtkFileChooserGetDoOverwriteConfirmation
            | Symbol::GtkFileChooserSetCreateFolders
            | Symbol::GtkFileChooserGetCreateFolders
            | Symbol::GtkFileChooserSetCurrentName
            | Symbol::GtkFileChooserGetCurrentName
            | Symbol::GtkFileChooserSetFilename
            | Symbol::GtkFileChooserGetFilename
            | Symbol::GtkFileChooserSelectFilename
            | Symbol::GtkFileChooserUnselectFilename
            | Symbol::GtkFileChooserSelectAll
            | Symbol::GtkFileChooserUnselectAll
            | Symbol::GtkFileChooserGetFilenames
            | Symbol::GtkFileChooserSetCurrentFolder
            | Symbol::GtkFileChooserGetCurrentFolder
            | Symbol::GtkFileChooserSetUri
            | Symbol::GtkFileChooserGetUri
            | Symbol::GtkFileChooserSelectUri
            | Symbol::GtkFileChooserUnselectUri
            | Symbol::GtkFileChooserGetUris
            | Symbol::GtkFileChooserSetCurrentFolderUri
            | Symbol::GtkFileChooserGetCurrentFolderUri
            | Symbol::GtkFileChooserSetPreviewWidgetActive
            | Symbol::GtkFileChooserGetPreviewWidgetActive
            | Symbol::GtkFileChooserSetUsePreviewLabel
            | Symbol::GtkFileChooserGetUsePreviewLabel
            | Symbol::GtkFileChooserGetPreviewFilename
            | Symbol::GtkFileChooserGetPreviewUri
            | Symbol::GtkFileChooserAddShortcutFolder
            | Symbol::GtkFileChooserRemoveShortcutFolder
            | Symbol::GtkFileChooserAddShortcutFolderUri
            | Symbol::GtkFileChooserRemoveShortcutFolderUri => Some(ClassId::FileChooser),
            Symbol::GtkGridAttach
            | Symbol::GtkGridAttachNextTo
            | Symbol::GtkGridInsertRow
            | Symbol::GtkGridInsertColumn
            | Symbol::GtkGridRemoveRow
            | Symbol::GtkGridRemoveColumn
            | Symbol::GtkGridInsertNextTo
            | Symbol::GtkGridSetRowHomogeneous
            | Symbol::GtkGridGetRowHomogeneous
            | Symbol::GtkGridSetRowSpacing
            | Symbol::GtkGridGetRowSpacing
            | Symbol::GtkGridSetColumnHomogeneous
            | Symbol::GtkGridGetColumnHomogeneous
            | Symbol::GtkGridSetColumnSpacing
            | Symbol::GtkGridGetColumnSpacing
            | Symbol::GtkGridGetBaselineRow
            | Symbol::GtkGridSetBaselineRow => Some(ClassId::Grid),
            Symbol::GtkOverlayAddOverlay => Some(ClassId::Overlay),
            Symbol::GtkColorButtonSetAlpha
            | Symbol::GtkColorButtonGetAlpha
            | Symbol::GtkColorButtonSetUseAlpha
            | Symbol::GtkColorButtonGetUseAlpha
            | Symbol::GtkColorButtonSetTitle
            | Symbol::GtkColorButtonGetTitle => Some(ClassId::ColorButton),
            Symbol::GtkAboutDialogGetProgramName
            | Symbol::GtkAboutDialogSetProgramName
            | Symbol::GtkAboutDialogGetVersion
            | Symbol::GtkAboutDialogSetVersion
            | Symbol::GtkAboutDialogGetCopyright
            | Symbol::GtkAboutDialogSetCopyright
            | Symbol::GtkAboutDialogGetComments
            | Symbol::GtkAboutDialogSetComments
            | Symbol::GtkAboutDialogGetLicense
            | Symbol::GtkAboutDialogSetLicense
            | Symbol::GtkAboutDialogGetWebsite
            | Symbol::GtkAboutDialogSetWebsite
            | Symbol::GtkAboutDialogGetWebsiteLabel
            | Symbol::GtkAboutDialogSetWebsiteLabel
            | Symbol::GtkAboutDialogGetTranslatorCredits
            | Symbol::GtkAboutDialogSetTranslatorCredits
            | Symbol::GtkAboutDialogGetLogoIconName
            | Symbol::GtkAboutDialogSetLogoIconName
            | Symbol::GtkAboutDialogGetWrapLicense
            | Symbol::GtkAboutDialogSetWrapLicense
            | Symbol::GtkAboutDialogGetAuthors
            | Symbol::GtkAboutDialogGetArtists
            | Symbol::GtkAboutDialogGetDocumenters => Some(ClassId::AboutDialog),
            Symbol::GtkButtonPressed
            | Symbol::GtkButtonReleased
            | Symbol::GtkButtonClicked
            | Symbol::GtkButtonEnter
            | Symbol::GtkButtonLeave
            | Symbol::GtkButtonSetRelief
            | Symbol::GtkButtonGetRelief
            | Symbol::GtkButtonGetLabel
            | Symbol::GtkButtonSetLabel
            | Symbol::GtkButtonGetUseStock
            | Symbol::GtkButtonSetUseStock
            | Symbol::GtkButtonGetUseUnderline
            | Symbol::GtkButtonSetUseUnderline
            | Symbol::GtkButtonSetFocusOnClick
            | Symbol::GtkButtonGetFocusOnClick
            | Symbol::GtkButtonSetImage
            | Symbol::GtkButtonSetImagePosition
            | Symbol::GtkButtonGetImagePosition
            | Symbol::GtkButtonSetAlwaysShowImage
            | Symbol::GtkButtonGetAlwaysShowImage => Some(ClassId::Button),
            _ => None,
        }
    }

    /// The class of the object that a constructor returns.
    #[verifier::when_used_as_spec(spec_creates)]
    pub fn creates(self) -> (c: Option<ClassId>)
        ensures
            c == self.spec_creates(),
    {
        match self {
            Symbol::GtkWindowNew => Some(ClassId::Window),
            Symbol::GtkButtonNewWithLabel => Some(ClassId::Button),
            Symbol::GtkCheckButtonNewWithLabel => Some(ClassId::CheckButton),
            Symbol::GtkToggleButtonNewWithLabel
            | Symbol::GtkToggleButtonNewWithMnemonic
            | Symbol::GtkToggleButtonNew => Some(ClassId::ToggleButton),
            Symbol::GtkBoxNew => Some(ClassId::Box),
            Symbol::GtkLabelNew => Some(ClassId::Label),
            Symbol::GtkImageNewFromFile => Some(ClassId::Image),
            Symbol::GtkFixedNew => Some(ClassId::Fixed),
            Symbol::GtkPanedNew => Some(ClassId::Paned),
            Symbol::GtkToolbarNew => Some(ClassId::Toolbar),
            Symbol::GtkToolItemNew => Some(ClassId::ToolItem),
            Symbol::GtkToolButtonNew
            | Symbol::GtkToolButtonNewFromStock => Some(ClassId::ToolButton),
            Symbol::GtkMenuToolButtonNew
            | Symbol::GtkMenuToolButtonNewFromStock => Some(ClassId::MenuToolButton),
            Symbol::GtkToggleToolButtonNew
            | Symbol::GtkToggleToolButtonNewFromStock => Some(ClassId::ToggleToolButton),
            Symbol::GtkScaleButtonNew => Some(ClassId::ScaleButton),
            Symbol::GtkSpinButtonNewWithRange => Some(ClassId::SpinButton),
            Symbol::GtkDialogNew
            | Symbol::GtkDialogNewWithButtons => Some(ClassId::Dialog),
            Symbol::GtkMessageDialogNew => Some(ClassId::MessageDialog),
            Symbol::GtkAboutDialogNew => Some(ClassId::AboutDialog),
            Symbol::GtkAppChooserDialogNewForContentType => Some(ClassId::AppChooserDialog),
            Symbol::GtkColorChooserDialogNew => Some(ClassId::ColorChooserDialog),
            Symbol::GtkFileChooserDialogNew => Some(ClassId::FileChooserDialog),
            Symbol::GtkFontChooserDialogNew => Some(ClassId::FontChooserDialog),
            Symbol::GtkRecentChooserDialogNew
            | Symbol::GtkRecentChooserDialogNewForManager => Some(ClassId::RecentChooserDialog),
            Symbol::GtkGridNew => Some(ClassId::Grid),
            Symbol::GtkFrameNew => Some(ClassId::Frame),
            Symbol::GtkOverlayNew => Some(ClassId::Overlay),
            Symbol::GtkVolumeButtonNew => Some(ClassId::VolumeButton),
            Symbol::GtkColorButtonNew => Some(ClassId::ColorButton),
            _ => None,
        }
    }

    /// The class to which the object in the first argument must belong.
    #[verifier::when_used_as_spec(spec_receiver_class)]
    pub fn receiver_class(self) -> (c: Option<ClassId>)
        ensures
            c == self.spec_receiver_class(),
    {
        match self {
            Symbol::GObjectRefSink
            | Symbol::GObjectRef
            | Symbol::GObjectUnref
            | Symbol::GSignalConnectData
            | Symbol::GSignalHandlerDisconnect
            | Symbol::GlueSignalConnect => Some(ClassId::Object),
            Symbol::GtkWidgetShowAll => Some(ClassId::Widget),
            Symbol::GtkContainerAdd
            | Symbol::GtkContainerRemove
            | Symbol::GtkContainerSetBorderWidth
            | Symbol::GtkContainerGetBorderWidth => Some(ClassId::Container),
            Symbol::GtkWindowSetTitle
            | Symbol::GtkWindowGetTitle
            | Symbol::GtkWindowSetDefaultSize
            | Symbol::GtkWindowSetPosition => Some(ClassId::Window),
            Symbol::GtkToggleButtonSetMode
            | Symbol::GtkToggleButtonGetMode
            | Symbol::GtkToggleButtonToggled
            | Symbol::GtkToggleButtonSetActive
            | Symbol::GtkToggleButtonGetActive
            | Symbol::GtkToggleButtonSetInconsistent
            | Symbol::GtkToggleButtonGetInconsistent => Some(ClassId::ToggleButton),
            Symbol::GtkFixedPut
            | Symbol::GtkFixedMove => Some(ClassId::Fixed),
            Symbol::GtkPanedAdd1
            | Symbol::GtkPanedAdd2
            | Symbol::GtkPanedPack1
            | Symbol::GtkPanedPack2
            | Symbol::GtkPanedSetPosition
            | Symbol::GtkPanedGetPosition
            | Symbol::GtkPanedGetHandleWindow => Some(ClassId::Paned),
            Symbol::GtkToolbarInsert
            | Symbol::GtkToolbarGetNthItem
            | Symbol::GtkToolbarSetShowArrow
            | Symbol::GtkToolbarGetShowArrow
            | Symbol::GtkToolbarGetItemIndex
            | Symbol::GtkToolbarGetNItems
            | Symbol::GtkToolbarGetDropIndex
            | Symbol::GtkToolbarSetDropHighlightItem
            | Symbol::GtkToolbarUnsetIconSize
            | Symbol::GtkToolbarUnsetStyle
            | Symbol::GtkToolbarGetStyle
            | Symbol::GtkToolbarGetIconSize
            | Symbol::GtkToolbarGetReliefStyle => Some(ClassId::Toolbar),
            Symbol::GtkMenuToolButtonSetArrowTooltipText
            | Symbol::GtkMenuToolButtonSetArrowTooltipMarkup => Some(ClassId::MenuToolButton),
            Symbol::GtkSpinButtonSetDigits
            | Symbol::GtkSpinButtonGetDigits
            | Symbol::GtkSpinButtonGetValueAsInt
            | Symbol::GtkSpinButtonSetNumeric
            | Symbol::GtkSpinButtonGetNumeric
            | Symbol::GtkSpinButtonSetWrap
            | Symbol::GtkSpinButtonGetWrap
            | Symbol::GtkSpinButtonSetSnapToTicks
            | Symbol::GtkSpinButtonGetSnapToTicks
            | Symbol::GtkSpinButtonUpdate => Some(ClassId::SpinButton),
            Symbol::GtkDialogRun
            | Symbol::GtkDialogResponse
            | Symbol::GtkDialogAddButton
            | Symbol::GtkDialogAddActionWidget
            | Symbol::GtkDialogSetDefaultResponse
            | Symbol::GtkDialogSetResponseSensitive
            | Symbol::GtkDialogGetResponseForWidget
            | Symbol::GtkDialogGetWidgetForResponse
            | Symbol::GtkDialogGetActionArea
            | Symbol::GtkDialogGetContentArea
            | Symbol::GtkDialogGetHeaderBar => Some(ClassId::Dialog),
            Symbol::GtkMessageDialogSetMarkup
            | Symbol::GtkMessageDialogGetMessageArea => Some(ClassId::MessageDialog),
            Symbol::GtkOrientableGetOrientation
            | Symbol::GtkOrientableSetOrientation => Some(ClassId::Orientable),
            Symbol::GtkColorChooserGetUseAlpha
            | Symbol::GtkColorChooserSetUseAlpha => Some(ClassId::ColorChooser),
            Symbol::GtkComboBoxGetWrapWidth
            | Symbol::GtkComboBoxSetWrapWidth
            | Symbol::GtkComboBoxGetRowSpanColumn
            | Symbol::GtkComboBoxSetRowSpanColumn
            | Symbol::GtkComboBoxGetColumnSpanColumn
            | Symbol::GtkComboBoxSetColumnSpanColumn
            | Symbol::GtkComboBoxGetActive
            | Symbol::GtkComboBoxSetActive
            | Symbol::GtkComboBoxGetIdColumn
            | Symbol::GtkComboBoxSetIdColumn
            | Symbol::GtkComboBoxGetActiveId
            | Symbol::GtkComboBoxSetActiveId
            | Symbol::GtkComboBoxGetModel
            | Symbol::GtkComboBoxPopup
            | Symbol::GtkComboBoxPopdown
            | Symbol::GtkComboBoxGetFocusOnClick
            | Symbol::GtkComboBoxSetFocusOnClick
            | Symbol::GtkComboBoxGetHasEntry
            | Symbol::GtkComboBoxSetEntryTextColumn
            | Symbol::GtkComboBoxGetEntryTextColumn
            | Symbol::GtkComboBoxSetPopupFixedWidth
            | Symbol::GtkComboBoxGetPopupFixedWidth => Some(ClassId::ComboBox),
            Symbol::GtkFileChooserSetAction
            | Symbol::GtkFileChooserGetAction
            | Symbol::GtkFileChooserSetLocalOnly
            | Symbol::GtkFileChooserGetLocalOnly
            | Symbol::GtkFileChooserSetSelectMultiple
            | Symbol::GtkFileChooserGetSelectMultiple
            | Symbol::GtkFileChooserSetShowHidden
            | Symbol::GtkFileChooserGetShowHidden
            | Symbol::GtkFileChooserSetDoOverwriteConfirmation
            | Symbol::GtkFileChooserGetDoOverwriteConfirmation
            | Symbol::GtkFileChooserSetCreateFolders
            | Symbol::GtkFileChooserGetCreateFolders
            | Symbol::GtkFileChooserSetCurrentName
            | Symbol::GtkFileChooserGetCurrentName
            | Symbol::GtkFileChooserSetFilename
            | Symbol::GtkFileChooserGetFilename
            | Symbol::GtkFileChooserSelectFilename
            | Symbol::GtkFileChooserUnselectFilename
            | Symbol::GtkFileChooserSelectAll
            | Symbol::GtkFileChooserUnselectAll
            | Symbol::GtkFileChooserGetFilenames
            | Symbol::GtkFileChooserSetCurrentFolder
            | Symbol::GtkFileChooserGetCurrentFolder
            | Symbol::GtkFileChooserSetUri
            | Symbol::GtkFileChooserGetUri
            | Symbol::GtkFileChooserSelectUri
            | Symbol::GtkFileChooserUnselectUri
            | Symbol::GtkFileChooserGetUris
            | Symbol::GtkFileChooserSetCurrentFolderUri
            | Symbol::GtkFileChooserGetCurrentFolderUri
            | Symbol::GtkFileChooserSetPreviewWidgetActive
            | Symbol::GtkFileChooserGetPreviewWidgetActive
            | Symbol::GtkFileChooserSetUsePreviewLabel
            | Symbol::GtkFileChooserGetUsePreviewLabel
            | Symbol::GtkFileChooserGetPreviewFilename
            | Symbol::GtkFileChooserGetPreviewUri
            | Symbol::GtkFileChooserAddShortcutFolder
            | Symbol::GtkFileChooserRemoveShortcutFolder
            | Symbol::GtkFileChooserAddShortcutFolderUri
            | Symbol::GtkFileChooserRemoveShortcutFolderUri => Some(ClassId::FileChooser),
            Symbol::GtkGridAttach
            | Symbol::GtkGridAttachNextTo
            | Symbol::GtkGridInsertRow
            | Symbol::GtkGridInsertColumn
            | Symbol::GtkGridRemoveRow
            | Symbol::GtkGridRemoveColumn
            | Symbol::GtkGridInsertNextTo
            | Symbol::GtkGridSetRowHomogeneous
            | Symbol::GtkGridGetRowHomogeneous
            | Symbol::GtkGridSetRowSpacing
            | Symbol::GtkGridGetRowSpacing
            | Symbol::GtkGridSetColumnHomogeneous
            | Symbol::GtkGridGetColumnHomogeneous
            | Symbol::GtkGridSetColumnSpacing
            | Symbol::GtkGridGetColumnSpacing
            | Symbol::GtkGridGetBaselineRow
            | Symbol::GtkGridSetBaselineRow => Some(ClassId::Grid),
            Symbol::GtkOverlayAddOverlay => Some(ClassId::Overlay),
            Symbol::GtkColorButtonSetAlpha
            | Symbol::GtkColorButtonGetAlpha
            | Symbol::GtkColorButtonSetUseAlpha
            | Symbol::GtkColorButtonGetUseAlpha
            | Symbol::GtkColorButtonSetTitle
            | Symbol::GtkColorButtonGetTitle => Some(ClassId::ColorButton),
            Symbol::GtkAboutDialogGetProgramName
            | Symbol::GtkAboutDialogSetProgramName
            | Symbol::GtkAboutDialogGetVersion
            | Symbol::GtkAboutDialogSetVersion
            | Symbol::GtkAboutDialogGetCopyright
            | Symbol::GtkAboutDialogSetCopyright
            | Symbol::GtkAboutDialogGetComments
            | Symbol::GtkAboutDialogSetComments
            | Symbol::GtkAboutDialogGetLicense
            | Symbol::GtkAboutDialogSetLicense
            | Symbol::GtkAboutDialogGetWebsite
            | Symbol::GtkAboutDialogSetWebsite
            | Symbol::GtkAboutDialogGetWebsiteLabel
            | Symbol::GtkAboutDialogSetWebsiteLabel
            | Symbol::GtkAboutDialogGetTranslatorCredits
            | Symbol::GtkAboutDialogSetTranslatorCredits
            | Symbol::GtkAboutDialogGetLogoIconName
            | Symbol::GtkAboutDialogSetLogoIconName
            | Symbol::GtkAboutDialogGetWrapLicense
            | Symbol::GtkAboutDialogSetWrapLicense
            | Symbol::GtkAboutDialogGetAuthors
            | Symbol::GtkAboutDialogGetArtists
            | Symbol::GtkAboutDialogGetDocumenters => Some(ClassId::AboutDialog),
            Symbol::GtkButtonPressed
            | Symbol::GtkButtonReleased
            | Symbol::GtkButtonClicked
            | Symbol::GtkButtonEnter
            | Symbol::GtkButtonLeave
            | Symbol::GtkButtonSetRelief
            | Symbol::GtkButtonGetRelief
            | Symbol::GtkButtonGetLabel
            | Symbol::GtkButtonSetLabel
            | Symbol::GtkButtonGetUseStock
            | Symbol::GtkButtonSetUseStock
            | Symbol::GtkButtonGetUseUnderline
            | Symbol::GtkButtonSetUseUnderline
            | Symbol::GtkButtonSetFocusOnClick
            | Symbol::GtkButtonGetFocusOnClick
            | Symbol::GtkButtonSetImage
            | Symbol::GtkButtonSetImagePosition
            | Symbol::GtkButtonGetImagePosition
            | Symbol::GtkButtonSetAlwaysShowImage
            | Symbol::GtkButtonGetAlwaysShowImage => Some(ClassId::Button),
            _ => None,
        }
    }

    /// The name of the entry point in the C libraries.
    pub open spec fn spec_name(self) -> &'static str {
        match self {
            Symbol::GObjectRefSink => "g_object_ref_sink",
            Symbol::GObjectRef => "g_object_ref",
            Symbol::GObjectUnref => "g_object_unref",
            Symbol::GSignalConnectData => "g_signal_connect_data",
            Symbol::GSignalHandlerDisconnect => "g_signal_handler_disconnect",
            Symbol::GErrorNewLiteral => "g_error_new_literal",
            Symbol::GErrorFree => "g_error_free",
            Symbol::GErrorMatches => "g_error_matches",
            Symbol::GErrorCopy => "g_error_copy",
            Symbol::GSetErrorLiteral => "g_set_error_literal",
            Symbol::GPropagateError => "g_propagate_error",
            Symbol::GtkInit => "gtk_init",
            Symbol::GtkMain => "gtk_main",
            Symbol::GtkMainQuit => "gtk_main_quit",
            Symbol::GtkWidgetShowAll => "gtk_widget_show_all",
            Symbol::GtkContainerAdd => "gtk_container_add",
            Symbol::GtkContainerRemove => "gtk_container_remove",
            Symbol::GtkContainerSetBorderWidth => "gtk_container_set_border_width",
            Symbol::GtkContainerGetBorderWidth => "gtk_container_get_border_width",
            Symbol::GtkWindowNew => "gtk_window_new",
            Symbol::GtkWindowSetTitle => "gtk_window_set_title",
            Symbol::GtkWindowGetTitle => "gtk_window_get_title",
            Symbol::GtkWindowSetDefaultSize => "gtk_window_set_default_size",
            Symbol::GtkWindowSetPosition => "gtk_window_set_position",
            Symbol::GtkButtonNewWithLabel => "gtk_button_new_with_label",
            Symbol::GtkCheckButtonNewWithLabel => "gtk_check_button_new_with_label",
            Symbol::GtkToggleButtonNewWithLabel => "gtk_toggle_button_new_with_label",
            Symbol::GtkToggleButtonNewWithMnemonic => "gtk_toggle_button_new_with_mnemonic",
            Symbol::GtkToggleButtonSetMode => "gtk_toggle_button_set_mode",
            Symbol::GtkToggleButtonGetMode => "gtk_toggle_button_get_mode",
            Symbol::GtkToggleButtonToggled => "gtk_toggle_button_toggled",
            Symbol::GtkToggleButtonSetActive => "gtk_toggle_button_set_active",
            Symbol::GtkToggleButtonGetActive => "gtk_toggle_button_get_active",
            Symbol::GtkToggleButtonSetInconsistent => "gtk_toggle_button_set_inconsistent",
            Symbol::GtkToggleButtonGetInconsistent => "gtk_toggle_button_get_inconsistent",
            Symbol::GtkBoxNew => "gtk_box_new",
            Symbol::GtkLabelNew => "gtk_label_new",
            Symbol::GtkImageNewFromFile => "gtk_image_new_from_file",
            Symbol::GtkFixedNew => "gtk_fixed_new",
            Symbol::GtkFixedPut => "gtk_fixed_put",
            Symbol::GtkFixedMove => "gtk_fixed_move",
            Symbol::GtkPanedNew => "gtk_paned_new",
            Symbol::GtkPanedAdd1 => "gtk_paned_add1",
            Symbol::GtkPanedAdd2 => "gtk_paned_add2",
            Symbol::GtkPanedPack1 => "gtk_paned_pack1",
            Symbol::GtkPanedPack2 => "gtk_paned_pack2",
            Symbol::GtkPanedSetPosition => "gtk_paned_set_position",
            Symbol::GtkPanedGetPosition => "gtk_paned_get_position",
            Symbol::GtkToolbarNew => "gtk_toolbar_new",
            Symbol::GtkToolbarInsert => "gtk_toolbar_insert",
            Symbol::GtkToolbarGetNthItem => "gtk_toolbar_get_nth_item",
            Symbol::GtkToolbarSetShowArrow => "gtk_toolbar_set_show_arrow",
            Symbol::GtkToolbarGetShowArrow => "gtk_toolbar_get_show_arrow",
            Symbol::GtkToolItemNew => "gtk_tool_item_new",
            Symbol::GtkToolButtonNew => "gtk_tool_button_new",
            Symbol::GtkToolButtonNewFromStock => "gtk_tool_button_new_from_stock",
            Symbol::GtkMenuToolButtonNew => "gtk_menu_tool_button_new",
            Symbol::GtkMenuToolButtonNewFromStock => "gtk_menu_tool_button_new_from_stock",
            Symbol::GtkMenuToolButtonSetArrowTooltipText => {
                "gtk_menu_tool_button_set_arrow_tooltip_text"
            },
            Symbol::GtkMenuToolButtonSetArrowTooltipMarkup => {
                "gtk_menu_tool_button_set_arrow_tooltip_markup"
            },
            Symbol::GtkToggleToolButtonNew => "gtk_toggle_tool_button_new",
            Symbol::GtkToggleToolButtonNewFromStock => "gtk_toggle_tool_button_new_from_stock",
            Symbol::GtkScaleButtonNew => "gtk_scale_button_new",
            Symbol::GtkSpinButtonNewWithRange => "gtk_spin_button_new_with_range",
            Symbol::GtkSpinButtonSetDigits => "gtk_spin_button_set_digits",
            Symbol::GtkSpinButtonGetDigits => "gtk_spin_button_get_digits",
            Symbol::GtkSpinButtonGetValueAsInt => "gtk_spin_button_get_value_as_int",
            Symbol::GtkSpinButtonSetNumeric => "gtk_spin_button_set_numeric",
            Symbol::GtkSpinButtonGetNumeric => "gtk_spin_button_get_numeric",
            Symbol::GtkSpinButtonSetWrap => "gtk_spin_button_set_wrap",
            Symbol::GtkSpinButtonGetWrap => "gtk_spin_button_get_wrap",
            Symbol::GtkSpinButtonSetSnapToTicks => "gtk_spin_button_set_snap_to_ticks",
            Symbol::GtkSpinButtonGetSnapToTicks => "gtk_spin_button_get_snap_to_ticks",
            Symbol::GtkSpinButtonUpdate => "gtk_spin_button_update",
            Symbol::GtkDialogNew => "gtk_dialog_new",
            Symbol::GtkDialogNewWithButtons => "gtk_dialog_new_with_buttons",
            Symbol::GtkDialogRun => "gtk_dialog_run",
            Symbol::GtkDialogResponse => "gtk_dialog_response",
            Symbol::GtkDialogAddButton => "gtk_dialog_add_button",
            Symbol::GtkDialogAddActionWidget => "gtk_dialog_add_action_widget",
            Symbol::GtkDialogSetDefaultResponse => "gtk_dialog_set_default_response",
            Symbol::GtkDialogSetResponseSensitive => "gtk_dialog_set_response_sensitive",
            Symbol::GtkDialogGetResponseForWidget => "gtk_dialog_get_response_for_widget",
            Symbol::GtkDialogGetWidgetForResponse => "gtk_dialog_get_widget_for_response",
            Symbol::GtkDialogGetActionArea => "gtk_dialog_get_action_area",
            Symbol::GtkDialogGetContentArea => "gtk_dialog_get_content_area",
            Symbol::GtkDialogGetHeaderBar => "gtk_dialog_get_header_bar",
            Symbol::GtkMessageDialogNew => "gtk_message_dialog_new",
            Symbol::GtkMessageDialogSetMarkup => "gtk_message_dialog_set_markup",
            Symbol::GtkMessageDialogGetMessageArea => "gtk_message_dialog_get_message_area",
            Symbol::GtkAboutDialogNew => "gtk_about_dialog_new",
            Symbol::GtkAppChooserDialogNewForContentType => {
                "gtk_app_chooser_dialog_new_for_content_type"
            },
            Symbol::GtkColorChooserDialogNew => "gtk_color_chooser_dialog_new",
            Symbol::GtkFileChooserDialogNew => "gtk_file_chooser_dialog_new",
            Symbol::GtkFontChooserDialogNew => "gtk_font_chooser_dialog_new",
            Symbol::GtkRecentChooserDialogNew => "gtk_recent_chooser_dialog_new",
            Symbol::GtkRecentChooserDialogNewForManager => {
                "gtk_recent_chooser_dialog_new_for_manager"
            },
            Symbol::GtkTextMarkNew => "gtk_text_mark_new",
            Symbol::GtkTextMarkSetVisible => "gtk_text_mark_set_visible",
            Symbol::GtkTextMarkGetVisible => "gtk_text_mark_get_visible",
            Symbol::GtkTextMarkGetName => "gtk_text_mark_get_name",
            Symbol::GtkTextMarkGetDeleted => "gtk_text_mark_get_deleted",
            Symbol::GtkTextMarkGetLeftGravity => "gtk_text_mark_get_left_gravity",
            Symbol::GtkToolbarGetItemIndex => "gtk_toolbar_get_item_index",
            Symbol::GtkToolbarGetNItems => "gtk_toolbar_get_n_items",
            Symbol::GtkToolbarGetDropIndex => "gtk_toolbar_get_drop_index",
            Symbol::GtkToolbarSetDropHighlightItem => "gtk_toolbar_set_drop_highlight_item",
            Symbol::GtkToolbarUnsetIconSize => "gtk_toolbar_unset_icon_size",
            Symbol::GtkToolbarUnsetStyle => "gtk_toolbar_unset_style",
            Symbol::GtkToolbarGetStyle => "gtk_toolbar_get_style",
            Symbol::GtkToolbarGetIconSize => "gtk_toolbar_get_icon_size",
            Symbol::GtkToolbarGetReliefStyle => "gtk_toolbar_get_relief_style",
            Symbol::GtkPanedGetHandleWindow => "gtk_paned_get_handle_window",
            Symbol::GtkTreeModelGetFlags => "gtk_tree_model_get_flags",
            Symbol::GtkTreeModelGetNColumns => "gtk_tree_model_get_n_columns",
            Symbol::GtkTreeModelGetColumnType => "gtk_tree_model_get_column_type",
            Symbol::GtkOrientableGetOrientation => "gtk_orientable_get_orientation",
            Symbol::GtkOrientableSetOrientation => "gtk_orientable_set_orientation",
            Symbol::GtkColorChooserGetUseAlpha => "gtk_color_chooser_get_use_alpha",
            Symbol::GtkColorChooserSetUseAlpha => "gtk_color_chooser_set_use_alpha",
            Symbol::GtkComboBoxGetWrapWidth => "gtk_combo_box_get_wrap_width",
            Symbol::GtkComboBoxSetWrapWidth => "gtk_combo_box_set_wrap_width",
            Symbol::GtkComboBoxGetRowSpanColumn => "gtk_combo_box_get_row_span_column",
            Symbol::GtkComboBoxSetRowSpanColumn => "gtk_combo_box_set_row_span_column",
            Symbol::GtkComboBoxGetColumnSpanColumn => "gtk_combo_box_get_column_span_column",
            Symbol::GtkComboBoxSetColumnSpanColumn => "gtk_combo_box_set_column_span_column",
            Symbol::GtkComboBoxGetActive => "gtk_combo_box_get_active",
            Symbol::GtkComboBoxSetActive => "gtk_combo_box_set_active",
            Symbol::GtkComboBoxGetIdColumn => "gtk_combo_box_get_id_column",
            Symbol::GtkComboBoxSetIdColumn => "gtk_combo_box_set_id_column",
            Symbol::GtkComboBoxGetActiveId => "gtk_combo_box_get_active_id",
            Symbol::GtkComboBoxSetActiveId => "gtk_combo_box_set_active_id",
            Symbol::GtkComboBoxGetModel => "gtk_combo_box_get_model",
            Symbol::GtkComboBoxPopup => "gtk_combo_box_popup",
            Symbol::GtkComboBoxPopdown => "gtk_combo_box_popdown",
            Symbol::GtkComboBoxGetFocusOnClick => "gtk_combo_box_get_focus_on_click",
            Symbol::GtkComboBoxSetFocusOnClick => "gtk_combo_box_set_focus_on_click",
            Symbol::GtkComboBoxGetHasEntry => "gtk_combo_box_get_has_entry",
            Symbol::GtkComboBoxSetEntryTextColumn => "gtk_combo_box_set_entry_text_column",
            Symbol::GtkComboBoxGetEntryTextColumn => "gtk_combo_box_get_entry_text_column",
            Symbol::GtkComboBoxSetPopupFixedWidth => "gtk_combo_box_set_popup_fixed_width",
            Symbol::GtkComboBoxGetPopupFixedWidth => "gtk_combo_box_get_popup_fixed_width",
            Symbol::GtkFileChooserSetAction => "gtk_file_chooser_set_action",
            Symbol::GtkFileChooserGetAction => "gtk_file_chooser_get_action",
            Symbol::GtkFileChooserSetLocalOnly => "gtk_file_chooser_set_local_only",
            Symbol::GtkFileChooserGetLocalOnly => "gtk_file_chooser_get_local_only",
            Symbol::GtkFileChooserSetSelectMultiple => "gtk_file_chooser_set_select_multiple",
            Symbol::GtkFileChooserGetSelectMultiple => "gtk_file_chooser_get_select_multiple",
            Symbol::GtkFileChooserSetShowHidden => "gtk_file_chooser_set_show_hidden",
            Symbol::GtkFileChooserGetShowHidden => "gtk_file_chooser_get_show_hidden",
            Symbol::GtkFileChooserSetDoOverwriteConfirmation => {
                "gtk_file_chooser_set_do_overwrite_confirmation"
            },
            Symbol::GtkFileChooserGetDoOverwriteConfirmation => {
                "gtk_file_chooser_get_do_overwrite_confirmation"
            },
            Symbol::GtkFileChooserSetCreateFolders => "gtk_file_chooser_set_create_folders",
            Symbol::GtkFileChooserGetCreateFolders => "gtk_file_chooser_get_create_folders",
            Symbol::GtkFileChooserSetCurrentName => "gtk_file_chooser_set_current_name",
            Symbol::GtkFileChooserGetCurrentName => "gtk_file_chooser_get_current_name",
            Symbol::GtkFileChooserSetFilename => "gtk_file_chooser_set_filename",
            Symbol::GtkFileChooserGetFilename => "gtk_file_chooser_get_filename",
            Symbol::GtkFileChooserSelectFilename => "gtk_file_chooser_select_filename",
            Symbol::GtkFileChooserUnselectFilename => "gtk_file_chooser_unselect_filename",
            Symbol::GtkFileChooserSelectAll => "gtk_file_chooser_select_all",
            Symbol::GtkFileChooserUnselectAll => "gtk_file_chooser_unselect_all",
            Symbol::GtkFileChooserGetFilenames => "gtk_file_chooser_get_filenames",
            Symbol::GtkFileChooserSetCurrentFolder => "gtk_file_chooser_set_current_folder",
            Symbol::GtkFileChooserGetCurrentFolder => "gtk_file_chooser_get_current_folder",
            Symbol::GtkFileChooserSetUri => "gtk_file_chooser_set_uri",
            Symbol::GtkFileChooserGetUri => "gtk_file_chooser_get_uri",
            Symbol::GtkFileChooserSelectUri => "gtk_file_chooser_select_uri",
            Symbol::GtkFileChooserUnselectUri => "gtk_file_chooser_unselect_uri",
            Symbol::GtkFileChooserGetUris => "gtk_file_chooser_get_uris",
            Symbol::GtkFileChooserSetCurrentFolderUri => "gtk_file_chooser_set_current_folder_uri",
            Symbol::GtkFileChooserGetCurrentFolderUri => "gtk_file_chooser_get_current_folder_uri",
            Symbol::GtkFileChooserSetPreviewWidgetActive => {
                "gtk_file_chooser_set_preview_widget_active"
            },
            Symbol::GtkFileChooserGetPreviewWidgetActive => {
                "gtk_file_chooser_get_preview_widget_active"
            },
            Symbol::GtkFileChooserSetUsePreviewLabel => "gtk_file_chooser_set_use_preview_label",
            Symbol::GtkFileChooserGetUsePreviewLabel => "gtk_file_chooser_get_use_preview_label",
            Symbol::GtkFileChooserGetPreviewFilename => "gtk_file_chooser_get_preview_filename",
            Symbol::GtkFileChooserGetPreviewUri => "gtk_file_chooser_get_preview_uri",
            Symbol::GtkFileChooserAddShortcutFolder => "gtk_file_chooser_add_shortcut_folder",
            Symbol::GtkFileChooserRemoveShortcutFolder => "gtk_file_chooser_remove_shortcut_folder",
            Symbol::GtkFileChooserAddShortcutFolderUri => {
                "gtk_file_chooser_add_shortcut_folder_uri"
            },
            Symbol::GtkFileChooserRemoveShortcutFolderUri => {
                "gtk_file_chooser_remove_shortcut_folder_uri"
            },
            Symbol::GListFree => "g_list_free",
            Symbol::GSListFree => "g_slist_free",
            Symbol::GFree => "g_free",
            Symbol::GlueSignalConnect => "glue_signal_connect",
            Symbol::GtkGridNew => "gtk_grid_new",
            Symbol::GtkGridAttach => "gtk_grid_attach",
            Symbol::GtkGridAttachNextTo => "gtk_grid_attach_next_to",
            Symbol::GtkGridInsertRow => "gtk_grid_insert_row",
            Symbol::GtkGridInsertColumn => "gtk_grid_insert_column",
            Symbol::GtkGridRemoveRow => "gtk_grid_remove_row",
            Symbol::GtkGridRemoveColumn => "gtk_grid_remove_column",
            Symbol::GtkGridInsertNextTo => "gtk_grid_insert_next_to",
            Symbol::GtkGridSetRowHomogeneous => "gtk_grid_set_row_homogeneous",
            Symbol::GtkGridGetRowHomogeneous => "gtk_grid_get_row_homogeneous",
            Symbol::GtkGridSetRowSpacing => "gtk_grid_set_row_spacing",
            Symbol::GtkGridGetRowSpacing => "gtk_grid_get_row_spacing",
            Symbol::GtkGridSetColumnHomogeneous => "gtk_grid_set_column_homogeneous",
            Symbol::GtkGridGetColumnHomogeneous => "gtk_grid_get_column_homogeneous",
            Symbol::GtkGridSetColumnSpacing => "gtk_grid_set_column_spacing",
            Symbol::GtkGridGetColumnSpacing => "gtk_grid_get_column_spacing",
            Symbol::GtkGridGetBaselineRow => "gtk_grid_get_baseline_row",
            Symbol::GtkGridSetBaselineRow => "gtk_grid_set_baseline_row",
            Symbol::GtkRadioButtonNew => "gtk_radio_button_new",
            Symbol::GtkRadioButtonNewWithLabel => "gtk_radio_button_new_with_label",
            Symbol::GtkRadioButtonNewWithMnemonic => "gtk_radio_button_new_with_mnemonic",
            Symbol::GtkRadioButtonJoinGroup => "gtk_radio_button_join_group",
            Symbol::GtkFrameNew => "gtk_frame_new",
            Symbol::GtkOverlayNew => "gtk_overlay_new",
            Symbol::GtkOverlayAddOverlay => "gtk_overlay_add_overlay",
            Symbol::GtkFontChooserWidgetNew => "gtk_font_chooser_widget_new",
            Symbol::GtkMenuBarNew => "gtk_menu_bar_new",
            Symbol::GtkMenuBarSetPackDirection => "gtk_menu_bar_set_pack_direction",
            Symbol::GtkMenuBarGetPackDirection => "gtk_menu_bar_get_pack_direction",
            Symbol::GtkMenuBarSetChildPackDirection => "gtk_menu_bar_set_child_pack_direction",
            Symbol::GtkMenuBarGetChildPackDirection => "gtk_menu_bar_get_child_pack_direction",
            Symbol::GtkVolumeButtonNew => "gtk_volume_button_new",
            Symbol::GtkColorButtonNew => "gtk_color_button_new",
            Symbol::GtkColorButtonSetAlpha => "gtk_color_button_set_alpha",
            Symbol::GtkColorButtonGetAlpha => "gtk_color_button_get_alpha",
            Symbol::GtkColorButtonSetUseAlpha => "gtk_color_button_set_use_alpha",
            Symbol::GtkColorButtonGetUseAlpha => "gtk_color_button_get_use_alpha",
            Symbol::GtkColorButtonSetTitle => "gtk_color_button_set_title",
            Symbol::GtkColorButtonGetTitle => "gtk_color_button_get_title",
            Symbol::GtkPaperSizeNew => "gtk_paper_size_new",
            Symbol::GtkPaperSizeGetDefault => "gtk_paper_size_get_default",
            Symbol::GtkPaperSizeGetPaperSizes => "gtk_paper_size_get_paper_sizes",
            Symbol::GtkPaperSizeCopy => "gtk_paper_size_copy",
            Symbol::GtkPaperSizeIsEqual => "gtk_paper_size_is_equal",
            Symbol::GtkPaperSizeGetName => "gtk_paper_size_get_name",
            Symbol::GtkPaperSizeGetDisplayName => "gtk_paper_size_get_display_name",
            Symbol::GtkPaperSizeGetPpdName => "gtk_paper_size_get_ppd_name",
            Symbol::GtkPaperSizeIsCustom => "gtk_paper_size_is_custom",
            Symbol::GtkAboutDialogGetProgramName => "gtk_about_dialog_get_program_name",
            Symbol::GtkAboutDialogSetProgramName => "gtk_about_dialog_set_program_name",
            Symbol::GtkAboutDialogGetVersion => "gtk_about_dialog_get_version",
            Symbol::GtkAboutDialogSetVersion => "gtk_about_dialog_set_version",
            Symbol::GtkAboutDialogGetCopyright => "gtk_about_dialog_get_copyright",
            Symbol::GtkAboutDialogSetCopyright => "gtk_about_dialog_set_copyright",
            Symbol::GtkAboutDialogGetComments => "gtk_about_dialog_get_comments",
            Symbol::GtkAboutDialogSetComments => "gtk_about_dialog_set_comments",
            Symbol::GtkAboutDialogGetLicense => "gtk_about_dialog_get_license",
            Symbol::GtkAboutDialogSetLicense => "gtk_about_dialog_set_license",
            Symbol::GtkAboutDialogGetWebsite => "gtk_about_dialog_get_website",
            Symbol::GtkAboutDialogSetWebsite => "gtk_about_dialog_set_website",
            Symbol::GtkAboutDialogGetWebsiteLabel => "gtk_about_dialog_get_website_label",
            Symbol::GtkAboutDialogSetWebsiteLabel => "gtk_about_dialog_set_website_label",
            Symbol::GtkAboutDialogGetTranslatorCredits => "gtk_about_dialog_get_translator_credits",
            Symbol::GtkAboutDialogSetTranslatorCredits => "gtk_about_dialog_set_translator_credits",
            Symbol::GtkAboutDialogGetLogoIconName => "gtk_about_dialog_get_logo_icon_name",
            Symbol::GtkAboutDialogSetLogoIconName => "gtk_about_dialog_set_logo_icon_name",
            Symbol::GtkAboutDialogGetWrapLicense => "gtk_about_dialog_get_wrap_license",
            Symbol::GtkAboutDialogSetWrapLicense => "gtk_about_dialog_set_wrap_license",
            Symbol::GtkAboutDialogGetAuthors => "gtk_about_dialog_get_authors",
            Symbol::GtkAboutDialogGetArtists => "gtk_about_dialog_get_artists",
            Symbol::GtkAboutDialogGetDocumenters => "gtk_about_dialog_get_documenters",
            Symbol::GtkButtonPressed => "gtk_button_pressed",
            Symbol::GtkButtonReleased => "gtk_button_released",
            Symbol::GtkButtonClicked => "gtk_button_clicked",
            Symbol::GtkButtonEnter => "gtk_button_enter",
            Symbol::GtkButtonLeave => "gtk_button_leave",
            Symbol::GtkButtonSetRelief => "gtk_button_set_relief",
            Symbol::GtkButtonGetRelief => "gtk_button_get_relief",
            Symbol::GtkButtonGetLabel => "gtk_button_get_label",
            Symbol::GtkButtonSetLabel => "gtk_button_set_label",
            Symbol::GtkButtonGetUseStock => "gtk_button_get_use_stock",
            Symbol::GtkButtonSetUseStock => "gtk_button_set_use_stock",
            Symbol::GtkButtonGetUseUnderline => "gtk_button_get_use_underline",
            Symbol::GtkButtonSetUseUnderline => "gtk_button_set_use_underline",
            Symbol::GtkButtonSetFocusOnClick => "gtk_button_set_focus_on_click",
            Symbol::GtkButtonGetFocusOnClick => "gtk_button_get_focus_on_click",
            Symbol::GtkButtonSetImage => "gtk_button_set_image",
            Symbol::GtkButtonSetImagePosition => "gtk_button_set_image_position",
            Symbol::GtkButtonGetImagePosition => "gtk_button_get_image_position",
            Symbol::GtkButtonSetAlwaysShowImage => "gtk_button_set_always_show_image",
            Symbol::GtkButtonGetAlwaysShowImage => "gtk_button_get_always_show_image",
            Symbol::GtkToggleButtonNew => "gtk_toggle_button_new",
            Symbol::GtkPaperSizeFree => "gtk_paper_size_free",
        }
    }

    #[verifier::when_used_as_spec(spec_name)]
    pub fn name(self) -> (n: &'static str)
        ensures
            n == self.spec_name(),
    {
        match self {
            Symbol::GObjectRefSink => "g_object_ref_sink",
            Symbol::GObjectRef => "g_object_ref",
            Symbol::GObjectUnref => "g_object_unref",
            Symbol::GSignalConnectData => "g_signal_connect_data",
            Symbol::GSignalHandlerDisconnect => "g_signal_handler_disconnect",
            Symbol::GErrorNewLiteral => "g_error_new_literal",
            Symbol::GErrorFree => "g_error_free",
            Symbol::GErrorMatches => "g_error_matches",
            Symbol::GErrorCopy => "g_error_copy",
            Symbol::GSetErrorLiteral => "g_set_error_literal",
            Symbol::GPropagateError => "g_propagate_error",
            Symbol::GtkInit => "gtk_init",
            Symbol::GtkMain => "gtk_main",
            Symbol::GtkMainQuit => "gtk_main_quit",
            Symbol::GtkWidgetShowAll => "gtk_widget_show_all",
            Symbol::GtkContainerAdd => "gtk_container_add",
            Symbol::GtkContainerRemove => "gtk_container_remove",
            Symbol::GtkContainerSetBorderWidth => "gtk_container_set_border_width",
            Symbol::GtkContainerGetBorderWidth => "gtk_container_get_border_width",
            Symbol::GtkWindowNew => "gtk_window_new",
            Symbol::GtkWindowSetTitle => "gtk_window_set_title",
            Symbol::GtkWindowGetTitle => "gtk_window_get_title",
            Symbol::GtkWindowSetDefaultSize => "gtk_window_set_default_size",
            Symbol::GtkWindowSetPosition => "gtk_window_set_position",
            Symbol::GtkButtonNewWithLabel => "gtk_button_new_with_label",
            Symbol::GtkCheckButtonNewWithLabel => "gtk_check_button_new_with_label",
            Symbol::GtkToggleButtonNewWithLabel => "gtk_toggle_button_new_with_label",
            Symbol::GtkToggleButtonNewWithMnemonic => "gtk_toggle_button_new_with_mnemonic",
            Symbol::GtkToggleButtonSetMode => "gtk_toggle_button_set_mode",
            Symbol::GtkToggleButtonGetMode => "gtk_toggle_button_get_mode",
            Symbol::GtkToggleButtonToggled => "gtk_toggle_button_toggled",
            Symbol::GtkToggleButtonSetActive => "gtk_toggle_button_set_active",
            Symbol::GtkToggleButtonGetActive => "gtk_toggle_button_get_active",
            Symbol::GtkToggleButtonSetInconsistent => "gtk_toggle_button_set_inconsistent",
            Symbol::GtkToggleButtonGetInconsistent => "gtk_toggle_button_get_inconsistent",
            Symbol::GtkBoxNew => "gtk_box_new",
            Symbol::GtkLabelNew => "gtk_label_new",
            Symbol::GtkImageNewFromFile => "gtk_image_new_from_file",
            Symbol::GtkFixedNew => "gtk_fixed_new",
            Symbol::GtkFixedPut => "gtk_fixed_put",
            Symbol::GtkFixedMove => "gtk_fixed_move",
            Symbol::GtkPanedNew => "gtk_paned_new",
            Symbol::GtkPanedAdd1 => "gtk_paned_add1",
            Symbol::GtkPanedAdd2 => "gtk_paned_add2",
            Symbol::GtkPanedPack1 => "gtk_paned_pack1",
            Symbol::GtkPanedPack2 => "gtk_paned_pack2",
            Symbol::GtkPanedSetPosition => "gtk_paned_set_position",
            Symbol::GtkPanedGetPosition => "gtk_paned_get_position",
            Symbol::GtkToolbarNew => "gtk_toolbar_new",
            Symbol::GtkToolbarInsert => "gtk_toolbar_insert",
            Symbol::GtkToolbarGetNthItem => "gtk_toolbar_get_nth_item",
            Symbol::GtkToolbarSetShowArrow => "gtk_toolbar_set_show_arrow",
            Symbol::GtkToolbarGetShowArrow => "gtk_toolbar_get_show_arrow",
            Symbol::GtkToolItemNew => "gtk_tool_item_new",
            Symbol::GtkToolButtonNew => "gtk_tool_button_new",
            Symbol::GtkToolButtonNewFromStock => "gtk_tool_button_new_from_stock",
            Symbol::GtkMenuToolButtonNew => "gtk_menu_tool_button_new",
            Symbol::GtkMenuToolButtonNewFromStock => "gtk_menu_tool_button_new_from_stock",
            Symbol::GtkMenuToolButtonSetArrowTooltipText => {
                "gtk_menu_tool_button_set_arrow_tooltip_text"
            },
            Symbol::GtkMenuToolButtonSetArrowTooltipMarkup => {
                "gtk_menu_tool_button_set_arrow_tooltip_markup"
            },
            Symbol::GtkToggleToolButtonNew => "gtk_toggle_tool_button_new",
            Symbol::GtkToggleToolButtonNewFromStock => "gtk_toggle_tool_button_new_from_stock",
            Symbol::GtkScaleButtonNew => "gtk_scale_button_new",
            Symbol::GtkSpinButtonNewWithRange => "gtk_spin_button_new_with_range",
            Symbol::GtkSpinButtonSetDigits => "gtk_spin_button_set_digits",
            Symbol::GtkSpinButtonGetDigits => "gtk_spin_button_get_digits",
            Symbol::GtkSpinButtonGetValueAsInt => "gtk_spin_button_get_value_as_int",
            Symbol::GtkSpinButtonSetNumeric => "gtk_spin_button_set_numeric",
            Symbol::GtkSpinButtonGetNumeric => "gtk_spin_button_get_numeric",
            Symbol::GtkSpinButtonSetWrap => "gtk_spin_button_set_wrap",
            Symbol::GtkSpinButtonGetWrap => "gtk_spin_button_get_wrap",
            Symbol::GtkSpinButtonSetSnapToTicks => "gtk_spin_button_set_snap_to_ticks",
            Symbol::GtkSpinButtonGetSnapToTicks => "gtk_spin_button_get_snap_to_ticks",
            Symbol::GtkSpinButtonUpdate => "gtk_spin_button_update",
            Symbol::GtkDialogNew => "gtk_dialog_new",
            Symbol::GtkDialogNewWithButtons => "gtk_dialog_new_with_buttons",
            Symbol::GtkDialogRun => "gtk_dialog_run",
            Symbol::GtkDialogResponse => "gtk_dialog_response",
            Symbol::GtkDialogAddButton => "gtk_dialog_add_button",
            Symbol::GtkDialogAddActionWidget => "gtk_dialog_add_action_widget",
            Symbol::GtkDialogSetDefaultResponse => "gtk_dialog_set_default_response",
            Symbol::GtkDialogSetResponseSensitive => "gtk_dialog_set_response_sensitive",
            Symbol::GtkDialogGetResponseForWidget => "gtk_dialog_get_response_for_widget",
            Symbol::GtkDialogGetWidgetForResponse => "gtk_dialog_get_widget_for_response",
            Symbol::GtkDialogGetActionArea => "gtk_dialog_get_action_area",
            Symbol::GtkDialogGetContentArea => "gtk_dialog_get_content_area",
            Symbol::GtkDialogGetHeaderBar => "gtk_dialog_get_header_bar",
            Symbol::GtkMessageDialogNew => "gtk_message_dialog_new",
            Symbol::GtkMessageDialogSetMarkup => "gtk_message_dialog_set_markup",
            Symbol::GtkMessageDialogGetMessageArea => "gtk_message_dialog_get_message_area",
            Symbol::GtkAboutDialogNew => "gtk_about_dialog_new",
            Symbol::GtkAppChooserDialogNewForContentType => {
                "gtk_app_chooser_dialog_new_for_content_type"
            },
            Symbol::GtkColorChooserDialogNew => "gtk_color_chooser_dialog_new",
            Symbol::GtkFileChooserDialogNew => "gtk_file_chooser_dialog_new",
            Symbol::GtkFontChooserDialogNew => "gtk_font_chooser_dialog_new",
            Symbol::GtkRecentChooserDialogNew => "gtk_recent_chooser_dialog_new",
            Symbol::GtkRecentChooserDialogNewForManager => {
                "gtk_recent_chooser_dialog_new_for_manager"
            },
            Symbol::GtkTextMarkNew => "gtk_text_mark_new",
            Symbol::GtkTextMarkSetVisible => "gtk_text_mark_set_visible",
            Symbol::GtkTextMarkGetVisible => "gtk_text_mark_get_visible",
            Symbol::GtkTextMarkGetName => "gtk_text_mark_get_name",
            Symbol::GtkTextMarkGetDeleted => "gtk_text_mark_get_deleted",
            Symbol::GtkTextMarkGetLeftGravity => "gtk_text_mark_get_left_gravity",
            Symbol::GtkToolbarGetItemIndex => "gtk_toolbar_get_item_index",
            Symbol::GtkToolbarGetNItems => "gtk_toolbar_get_n_items",
            Symbol::GtkToolbarGetDropIndex => "gtk_toolbar_get_drop_index",
            Symbol::GtkToolbarSetDropHighlightItem => "gtk_toolbar_set_drop_highlight_item",
            Symbol::GtkToolbarUnsetIconSize => "gtk_toolbar_unset_icon_size",
            Symbol::GtkToolbarUnsetStyle => "gtk_toolbar_unset_style",
            Symbol::GtkToolbarGetStyle => "gtk_toolbar_get_style",
            Symbol::GtkToolbarGetIconSize => "gtk_toolbar_get_icon_size",
            Symbol::GtkToolbarGetReliefStyle => "gtk_toolbar_get_relief_style",
            Symbol::GtkPanedGetHandleWindow => "gtk_paned_get_handle_window",
            Symbol::GtkTreeModelGetFlags => "gtk_tree_model_get_flags",
            Symbol::GtkTreeModelGetNColumns => "gtk_tree_model_get_n_columns",
            Symbol::GtkTreeModelGetColumnType => "gtk_tree_model_get_column_type",
            Symbol::GtkOrientableGetOrientation => "gtk_orientable_get_orientation",
            Symbol::GtkOrientableSetOrientation => "gtk_orientable_set_orientation",
            Symbol::GtkColorChooserGetUseAlpha => "gtk_color_chooser_get_use_alpha",
            Symbol::GtkColorChooserSetUseAlpha => "gtk_color_chooser_set_use_alpha",
            Symbol::GtkComboBoxGetWrapWidth => "gtk_combo_box_get_wrap_width",
            Symbol::GtkComboBoxSetWrapWidth => "gtk_combo_box_set_wrap_width",
            Symbol::GtkComboBoxGetRowSpanColumn => "gtk_combo_box_get_row_span_column",
            Symbol::GtkComboBoxSetRowSpanColumn => "gtk_combo_box_set_row_span_column",
            Symbol::GtkComboBoxGetColumnSpanColumn => "gtk_combo_box_get_column_span_column",
            Symbol::GtkComboBoxSetColumnSpanColumn => "gtk_combo_box_set_column_span_column",
            Symbol::GtkComboBoxGetActive => "gtk_combo_box_get_active",
            Symbol::GtkComboBoxSetActive => "gtk_combo_box_set_active",
            Symbol::GtkComboBoxGetIdColumn => "gtk_combo_box_get_id_column",
            Symbol::GtkComboBoxSetIdColumn => "gtk_combo_box_set_id_column",
            Symbol::GtkComboBoxGetActiveId => "gtk_combo_box_get_active_id",
            Symbol::GtkComboBoxSetActiveId => "gtk_combo_box_set_active_id",
            Symbol::GtkComboBoxGetModel => "gtk_combo_box_get_model",
            Symbol::GtkComboBoxPopup => "gtk_combo_box_popup",
            Symbol::GtkComboBoxPopdown => "gtk_combo_box_popdown",
            Symbol::GtkComboBoxGetFocusOnClick => "gtk_combo_box_get_focus_on_click",
            Symbol::GtkComboBoxSetFocusOnClick => "gtk_combo_box_set_focus_on_click",
            Symbol::GtkComboBoxGetHasEntry => "gtk_combo_box_get_has_entry",
            Symbol::GtkComboBoxSetEntryTextColumn => "gtk_combo_box_set_entry_text_column",
            Symbol::GtkComboBoxGetEntryTextColumn => "gtk_combo_box_get_entry_text_column",
            Symbol::GtkComboBoxSetPopupFixedWidth => "gtk_combo_box_set_popup_fixed_width",
            Symbol::GtkComboBoxGetPopupFixedWidth => "gtk_combo_box_get_popup_fixed_width",
            Symbol::GtkFileChooserSetAction => "gtk_file_chooser_set_action",
            Symbol::GtkFileChooserGetAction => "gtk_file_chooser_get_action",
            Symbol::GtkFileChooserSetLocalOnly => "gtk_file_chooser_set_local_only",
            Symbol::GtkFileChooserGetLocalOnly => "gtk_file_chooser_get_local_only",
            Symbol::GtkFileChooserSetSelectMultiple => "gtk_file_chooser_set_select_multiple",
            Symbol::GtkFileChooserGetSelectMultiple => "gtk_file_chooser_get_select_multiple",
            Symbol::GtkFileChooserSetShowHidden => "gtk_file_chooser_set_show_hidden",
            Symbol::GtkFileChooserGetShowHidden => "gtk_file_chooser_get_show_hidden",
            Symbol::GtkFileChooserSetDoOverwriteConfirmation => {
                "gtk_file_chooser_set_do_overwrite_confirmation"
            },
            Symbol::GtkFileChooserGetDoOverwriteConfirmation => {
                "gtk_file_chooser_get_do_overwrite_confirmation"
            },
            Symbol::GtkFileChooserSetCreateFolders => "gtk_file_chooser_set_create_folders",
            Symbol::GtkFileChooserGetCreateFolders => "gtk_file_chooser_get_create_folders",
            Symbol::GtkFileChooserSetCurrentName => "gtk_file_chooser_set_current_name",
            Symbol::GtkFileChooserGetCurrentName => "gtk_file_chooser_get_current_name",
            Symbol::GtkFileChooserSetFilename => "gtk_file_chooser_set_filename",
            Symbol::GtkFileChooserGetFilename => "gtk_file_chooser_get_filename",
            Symbol::GtkFileChooserSelectFilename => "gtk_file_chooser_select_filename",
            Symbol::GtkFileChooserUnselectFilename => "gtk_file_chooser_unselect_filename",
            Symbol::GtkFileChooserSelectAll => "gtk_file_chooser_select_all",
            Symbol::GtkFileChooserUnselectAll => "gtk_file_chooser_unselect_all",
            Symbol::GtkFileChooserGetFilenames => "gtk_file_chooser_get_filenames",
            Symbol::GtkFileChooserSetCurrentFolder => "gtk_file_chooser_set_current_folder",
            Symbol::GtkFileChooserGetCurrentFolder => "gtk_file_chooser_get_current_folder",
            Symbol::GtkFileChooserSetUri => "gtk_file_chooser_set_uri",
            Symbol::GtkFileChooserGetUri => "gtk_file_chooser_get_uri",
            Symbol::GtkFileChooserSelectUri => "gtk_file_chooser_select_uri",
            Symbol::GtkFileChooserUnselectUri => "gtk_file_chooser_unselect_uri",
            Symbol::GtkFileChooserGetUris => "gtk_file_chooser_get_uris",
            Symbol::GtkFileChooserSetCurrentFolderUri => "gtk_file_chooser_set_current_folder_uri",
            Symbol::GtkFileChooserGetCurrentFolderUri => "gtk_file_chooser_get_current_folder_uri",
            Symbol::GtkFileChooserSetPreviewWidgetActive => {
                "gtk_file_chooser_set_preview_widget_active"
            },
            Symbol::GtkFileChooserGetPreviewWidgetActive => {
                "gtk_file_chooser_get_preview_widget_active"
            },
            Symbol::GtkFileChooserSetUsePreviewLabel => "gtk_file_chooser_set_use_preview_label",
            Symbol::GtkFileChooserGetUsePreviewLabel => "gtk_file_chooser_get_use_preview_label",
            Symbol::GtkFileChooserGetPreviewFilename => "gtk_file_chooser_get_preview_filename",
            Symbol::GtkFileChooserGetPreviewUri => "gtk_file_chooser_get_preview_uri",
            Symbol::GtkFileChooserAddShortcutFolder => "gtk_file_chooser_add_shortcut_folder",
            Symbol::GtkFileChooserRemoveShortcutFolder => "gtk_file_chooser_remove_shortcut_folder",
            Symbol::GtkFileChooserAddShortcutFolderUri => {
                "gtk_file_chooser_add_shortcut_folder_uri"
            },
            Symbol::GtkFileChooserRemoveShortcutFolderUri => {
                "gtk_file_chooser_remove_shortcut_folder_uri"
            },
            Symbol::GListFree => "g_list_free",
            Symbol::GSListFree => "g_slist_free",
            Symbol::GFree => "g_free",
            Symbol::GlueSignalConnect => "glue_signal_connect",
            Symbol::GtkGridNew => "gtk_grid_new",
            Symbol::GtkGridAttach => "gtk_grid_attach",
            Symbol::GtkGridAttachNextTo => "gtk_grid_attach_next_to",
            Symbol::GtkGridInsertRow => "gtk_grid_insert_row",
            Symbol::GtkGridInsertColumn => "gtk_grid_insert_column",
            Symbol::GtkGridRemoveRow => "gtk_grid_remove_row",
            Symbol::GtkGridRemoveColumn => "gtk_grid_remove_column",
            Symbol::GtkGridInsertNextTo => "gtk_grid_insert_next_to",
            Symbol::GtkGridSetRowHomogeneous => "gtk_grid_set_row_homogeneous",
            Symbol::GtkGridGetRowHomogeneous => "gtk_grid_get_row_homogeneous",
            Symbol::GtkGridSetRowSpacing => "gtk_grid_set_row_spacing",
            Symbol::GtkGridGetRowSpacing => "gtk_grid_get_row_spacing",
            Symbol::GtkGridSetColumnHomogeneous => "gtk_grid_set_column_homogeneous",
            Symbol::GtkGridGetColumnHomogeneous => "gtk_grid_get_column_homogeneous",
            Symbol::GtkGridSetColumnSpacing => "gtk_grid_set_column_spacing",
            Symbol::GtkGridGetColumnSpacing => "gtk_grid_get_column_spacing",
            Symbol::GtkGridGetBaselineRow => "gtk_grid_get_baseline_row",
            Symbol::GtkGridSetBaselineRow => "gtk_grid_set_baseline_row",
            Symbol::GtkRadioButtonNew => "gtk_radio_button_new",
            Symbol::GtkRadioButtonNewWithLabel => "gtk_radio_button_new_with_label",
            Symbol::GtkRadioButtonNewWithMnemonic => "gtk_radio_button_new_with_mnemonic",
            Symbol::GtkRadioButtonJoinGroup => "gtk_radio_button_join_group",
            Symbol::GtkFrameNew => "gtk_frame_new",
            Symbol::GtkOverlayNew => "gtk_overlay_new",
            Symbol::GtkOverlayAddOverlay => "gtk_overlay_add_overlay",
            Symbol::GtkFontChooserWidgetNew => "gtk_font_chooser_widget_new",
            Symbol::GtkMenuBarNew => "gtk_menu_bar_new",
            Symbol::GtkMenuBarSetPackDirection => "gtk_menu_bar_set_pack_direction",
            Symbol::GtkMenuBarGetPackDirection => "gtk_menu_bar_get_pack_direction",
            Symbol::GtkMenuBarSetChildPackDirection => "gtk_menu_bar_set_child_pack_direction",
            Symbol::GtkMenuBarGetChildPackDirection => "gtk_menu_bar_get_child_pack_direction",
            Symbol::GtkVolumeButtonNew => "gtk_volume_button_new",
            Symbol::GtkColorButtonNew => "gtk_color_button_new",
            Symbol::GtkColorButtonSetAlpha => "gtk_color_button_set_alpha",
            Symbol::GtkColorButtonGetAlpha => "gtk_color_button_get_alpha",
            Symbol::GtkColorButtonSetUseAlpha => "gtk_color_button_set_use_alpha",
            Symbol::GtkColorButtonGetUseAlpha => "gtk_color_button_get_use_alpha",
            Symbol::GtkColorButtonSetTitle => "gtk_color_button_set_title",
            Symbol::GtkColorButtonGetTitle => "gtk_color_button_get_title",
            Symbol::GtkPaperSizeNew => "gtk_paper_size_new",
            Symbol::GtkPaperSizeGetDefault => "gtk_paper_size_get_default",
            Symbol::GtkPaperSizeGetPaperSizes => "gtk_paper_size_get_paper_sizes",
            Symbol::GtkPaperSizeCopy => "gtk_paper_size_copy",
            Symbol::GtkPaperSizeIsEqual => "gtk_paper_size_is_equal",
            Symbol::GtkPaperSizeGetName => "gtk_paper_size_get_name",
            Symbol::GtkPaperSizeGetDisplayName => "gtk_paper_size_get_display_name",
            Symbol::GtkPaperSizeGetPpdName => "gtk_paper_size_get_ppd_name",
            Symbol::GtkPaperSizeIsCustom => "gtk_paper_size_is_custom",
            Symbol::GtkAboutDialogGetProgramName => "gtk_about_dialog_get_program_name",
            Symbol::GtkAboutDialogSetProgramName => "gtk_about_dialog_set_program_name",
            Symbol::GtkAboutDialogGetVersion => "gtk_about_dialog_get_version",
            Symbol::GtkAboutDialogSetVersion => "gtk_about_dialog_set_version",
            Symbol::GtkAboutDialogGetCopyright => "gtk_about_dialog_get_copyright",
            Symbol::GtkAboutDialogSetCopyright => "gtk_about_dialog_set_copyright",
            Symbol::GtkAboutDialogGetComments => "gtk_about_dialog_get_comments",
            Symbol::GtkAboutDialogSetComments => "gtk_about_dialog_set_comments",
            Symbol::GtkAboutDialogGetLicense => "gtk_about_dialog_get_license",
            Symbol::GtkAboutDialogSetLicense => "gtk_about_dialog_set_license",
            Symbol::GtkAboutDialogGetWebsite => "gtk_about_dialog_get_website",
            Symbol::GtkAboutDialogSetWebsite => "gtk_about_dialog_set_website",
            Symbol::GtkAboutDialogGetWebsiteLabel => "gtk_about_dialog_get_website_label",
            Symbol::GtkAboutDialogSetWebsiteLabel => "gtk_about_dialog_set_website_label",
            Symbol::GtkAboutDialogGetTranslatorCredits => "gtk_about_dialog_get_translator_credits",
            Symbol::GtkAboutDialogSetTranslatorCredits => "gtk_about_dialog_set_translator_credits",
            Symbol::GtkAboutDialogGetLogoIconName => "gtk_about_dialog_get_logo_icon_name",
            Symbol::GtkAboutDialogSetLogoIconName => "gtk_about_dialog_set_logo_icon_name",
            Symbol::GtkAboutDialogGetWrapLicense => "gtk_about_dialog_get_wrap_license",
            Symbol::GtkAboutDialogSetWrapLicense => "gtk_about_dialog_set_wrap_license",
            Symbol::GtkAboutDialogGetAuthors => "gtk_about_dialog_get_authors",
            Symbol::GtkAboutDialogGetArtists => "gtk_about_dialog_get_artists",
            Symbol::GtkAboutDialogGetDocumenters => "gtk_about_dialog_get_documenters",
            Symbol::GtkButtonPressed => "gtk_button_pressed",
            Symbol::GtkButtonReleased => "gtk_button_released",
            Symbol::GtkButtonClicked => "gtk_button_clicked",
            Symbol::GtkButtonEnter => "gtk_button_enter",
            Symbol::GtkButtonLeave => "gtk_button_leave",
            Symbol::GtkButtonSetRelief => "gtk_button_set_relief",
            Symbol::GtkButtonGetRelief => "gtk_button_get_relief",
            Symbol::GtkButtonGetLabel => "gtk_button_get_label",
            Symbol::GtkButtonSetLabel => "gtk_button_set_label",
            Symbol::GtkButtonGetUseStock => "gtk_button_get_use_stock",
            Symbol::GtkButtonSetUseStock => "gtk_button_set_use_stock",
            Symbol::GtkButtonGetUseUnderline => "gtk_button_get_use_underline",
            Symbol::GtkButtonSetUseUnderline => "gtk_button_set_use_underline",
            Symbol::GtkButtonSetFocusOnClick => "gtk_button_set_focus_on_click",
            Symbol::GtkButtonGetFocusOnClick => "gtk_button_get_focus_on_click",
            Symbol::GtkButtonSetImage => "gtk_button_set_image",
            Symbol::GtkButtonSetImagePosition => "gtk_button_set_image_position",
            Symbol::GtkButtonGetImagePosition => "gtk_button_get_image_position",
            Symbol::GtkButtonSetAlwaysShowImage => "gtk_button_set_always_show_image",
            Symbol::GtkButtonGetAlwaysShowImage => "gtk_button_get_always_show_image",
            Symbol::GtkToggleButtonNew => "gtk_toggle_button_new",
            Symbol::GtkPaperSizeFree => "gtk_paper_size_free",
        }
    }
}

} // verus!
