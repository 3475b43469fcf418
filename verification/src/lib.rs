//! Core logic of a small 2D sprite game.
//!
//! The library holds the verified game state: an entity store with
//! position, velocity, player-marker, animation and texture components,
//! the per-frame update system (input-driven horizontal movement with
//! clamping and friction, breath-cycle phase advance, a two-state
//! idle/running machine) and the draw systems, which produce explicit
//! draw commands instead of issuing calls into a graphics backend.
//!
//! All continuous quantities are exact fixed-point integers in
//! milli-units (thousandths of a world unit), so every rule of the game
//! logic is stated and proved exactly. A thin unverified front end owns
//! the window, polls the keyboard, and renders the draw commands.

pub mod anim;
pub mod components;
pub mod draw;
pub mod geom;
pub mod physics;
pub mod update;
pub mod world;
