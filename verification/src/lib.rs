//! Core game rules of Cute Of Duty: the elemental reaction system, the
//! backpack and supply logic, the interact menu, the pre-match loadout, the
//! in-match supply crates, the radial item wheel, overlay state and game modes.
//!
//! Floating-point quantities (damage multipliers, penalties, radii) are carried
//! through the library as their IEEE-754 bit patterns and are never computed on
//! here; the presentation layer turns them back into `f32`.
pub mod text;
pub mod element;
pub mod combat;
pub mod inventory;
pub mod interact;
pub mod loadout;
pub mod supply_crate;
pub mod panels;
pub mod menu;
pub mod wheel;
