//! A terminal directory browser's core: listing, navigation, rendering plan,
//! editor hand-off and text probing, with machine-checked contracts.

pub mod config;
pub mod fee;
pub mod input;
pub mod item;
pub mod listing;
pub mod path;
pub mod render;
pub mod state;
pub mod text;
