//! The object, type and signal bridge of a binding to a C widget toolkit.
//!
//! Nothing here crosses the foreign boundary itself. Every operation that
//! the toolkit has to carry out is handed back as a [`ffi::Call`], a plain
//! description of one C entry point and its marshalled arguments; what the
//! toolkit answers is handed in as plain values. [`model::Toolkit`] states
//! what each call does to the reference counts, the widget tree and the
//! signal handlers of the foreign objects.

#![allow(non_camel_case_types)]

pub mod cairo;
pub mod ffi;
pub mod gdk;
pub mod glib;
pub mod gtk;
pub mod model;
