//! The capability sets of interfaces and of classes without constructors of
//! their own here.

pub mod button;
pub mod color_chooser;
pub mod combo_box;
pub mod file_chooser;
pub mod orientable;
