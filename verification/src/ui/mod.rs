//! What the window's controls decide, apart from the widgets that show it.

pub mod list;
pub mod toolbar;
