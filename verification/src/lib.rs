//! Deterministic per-tick simulation core of a 2D action game.
//!
//! The crate advances world state (players, NPCs, bullets, the camera frame
//! and dynamic water surfaces) by discrete ticks and resolves the
//! interactions between them. All positions use a shared signed fixed-point
//! scale (512 sub-units per logical pixel); conversion to display pixels is
//! left to the render boundary.

pub mod collision;
pub mod common;
pub mod effects;
pub mod frame;
pub mod inventory;
pub mod npc;
pub mod player;
pub mod scene;
pub mod skin;
pub mod state;
pub mod water;
pub mod weapon;
