//! A retained-mode UI toolkit core: observable properties with two-way
//! binding, a control tree with dirty propagation, a measure / arrange /
//! draw pass, and pointer-event routing with hit-testing.
//!
//! All geometry is expressed in whole pixels.

pub mod common;
pub mod observable;
pub mod property;
pub mod binding;
pub mod callback;
pub mod events;
pub mod attached;
pub mod control;
pub mod drawing;
pub mod style;
pub mod default_theme;
pub mod controls;
pub mod layout;
pub mod render;
pub mod routing;
pub mod application;
pub mod view;
pub mod resources;
pub mod services;
