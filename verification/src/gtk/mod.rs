//! The widget toolkit: the capability sets of its classes, its dialogs and
//! its signals.

pub mod about_dialog;
pub mod box_;
pub mod button;
pub mod cast;
pub mod check_button;
pub mod container;
pub mod dialog;
pub mod enums;
pub mod ffi;
pub mod rt;
pub mod signals;
pub mod toggle_button;
pub mod traits;
pub mod widget;
pub mod widgets;
pub mod window;
