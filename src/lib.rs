//! Game-side logic of a small 2D action prototype: display helpers, the
//! colour scheme, and the per-frame decisions taken from the player's keys.
pub mod helpers;
pub mod palette;
pub mod controls;
