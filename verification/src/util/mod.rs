//! Helpers shared by the label and parser modules.

pub mod number;
pub mod seconds;
pub mod text;
pub mod time;
