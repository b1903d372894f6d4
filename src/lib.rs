//! A searchable, scrollable list of keyboard-shortcut bindings: the data
//! model, the search filter, the text layout, the scroll controller and the
//! key dispatcher of a terminal keybind menu.

pub mod filter;
pub mod keybind;
pub mod layout;
pub mod state;
pub mod text;
