//! The windowing layer underneath the toolkit.

pub mod event;
