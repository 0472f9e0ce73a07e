//! The widgets a scene draws: positioned elements, text blocks,
//! buttons, and the button selector.

pub mod button;
pub mod selector;
pub mod text;
pub mod ui_element;
