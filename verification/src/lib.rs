//! The reader's inline definition panel and the Latin dictionary lookup it
//! shows, with their behaviour stated in contracts and proved.
//!
//! - `geom`: points and rectangles.
//! - `scroll_bar`: the scroll bar that shows and picks the page of a panel.
//! - `definition_panel`: the panel's layout, pages and event handling.
//! - `collatinus`: what a Latin dictionary lookup answers.
pub mod geom;
pub mod scroll_bar;
pub mod definition_panel;
pub mod collatinus;
