//! Lifecycle and rendering glue for an in-game inventory screen.
//!
//! The crate bridges a generic screen abstraction with a polymorphic
//! inventory model: activating a screen publishes its inventory to the
//! process-wide inventory context, the model builds per-slot widgets through
//! the screen's widget pool (resolving each item's icon texture with a
//! fallback rule), per-frame ticks let the model mutate those widgets, and
//! deactivation clears the context and tears the widgets down.

pub mod inventory;
pub mod models;
pub mod render;
pub mod ui;
pub mod window;
