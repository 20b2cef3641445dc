//! The built-in controls and their default styles.

pub mod bitmap;
pub mod button;
pub mod horizontal;
pub mod scroll_bar;
pub mod tab_control;
pub mod text;
