//! Side effects the simulation core asks its collaborators to perform.
//!
//! The core never draws, plays audio or runs scripts itself; it records
//! each requested collaborator operation as an `Effect`, in the order the
//! pipeline produced it, and the embedding performs them. `Ext*` entries
//! mark the points of the fixed tick order at which a collaborator runs
//! its own tick.

use vstd::prelude::*;

use crate::common::Direction;
use crate::player::TargetPlayer;

verus! {

#[derive(Clone, Copy, PartialEq, Eq, Structural, Debug)]
pub enum CaretType {
    HurtParticles,
    ProjectileDissipation,
    LevelUp,
}

#[derive(Clone, Copy, PartialEq, Eq, Structural, Debug)]
pub enum Effect {
    /// Play a sound effect by fixed id.
    PlaySfx(u8),
    /// Play the hurt sound the NPC table assigns to this NPC type.
    PlayHurtSfx(u16),
    /// Spawn a visual caret effect.
    CreateCaret { x: i32, y: i32, ctype: CaretType, direction: Direction },
    /// Start the event script with this number.
    StartScript(u16),
    /// Remove a dead NPC: spawn its death effects and roll its drops.
    KillNpc { id: u16, vanish: bool, can_drop_missile: bool },
    /// Spawn the boss death smoke cloud.
    CreateDeathSmoke { x: i32, y: i32, radius: u32, count: u32 },
    /// Drain this much experience from the player's active weapon.
    TakeXp { target: TargetPlayer, amount: u32 },
    /// Leave the scene for the title screen.
    NextSceneTitle,
    /// Collaborator ticks, in pipeline order.
    ExtTickPlayers,
    ExtTickNpcsAndBoss,
    ExtTickMapCollisions,
    ExtTickPlayerNpcCollisions,
    ExtTickBullets,
    ExtTickCarets,
    ExtEaseCamera,
    ExtTickWeaponsAndHud,
    ExtTickFlash,
    ExtRunTextScript,
    ExtTickStageSelect,
    ExtTickInventoryUI,
}

} // verus!
