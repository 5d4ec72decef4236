//! Helpers shared by the components.

pub mod text;
