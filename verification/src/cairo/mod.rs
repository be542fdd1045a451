//! The drawing library underneath the toolkit.

pub mod paths;
pub mod patterns;
