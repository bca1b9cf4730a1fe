//! NPCs and the boss: the entity state the collision and camera
//! subsystems read and mutate. Behavior tables and AI ticks are external
//! collaborators; the core only flips liveness flags and bookkeeping
//! fields.

use vstd::prelude::*;

use crate::common::{Cond, Rect};
use crate::weapon::Bullet;

verus! {

#[derive(Clone, Copy, PartialEq, Eq, Structural, Debug, Default)]
pub struct NpcFlags {
    pub shootable: bool,
    pub interactable: bool,
    pub invulnerable: bool,
    pub event_when_killed: bool,
    pub show_damage: bool,
    pub ignore_solidity: bool,
}

#[derive(Clone, Copy, PartialEq, Eq, Structural, Debug)]
pub struct Npc {
    pub id: u16,
    pub npc_type: u16,
    pub x: i32,
    pub y: i32,
    pub prev_x: i32,
    pub prev_y: i32,
    pub life: u16,
    pub shock: u16,
    pub event_num: u16,
    pub size: u8,
    pub cond: Cond,
    pub npc_flags: NpcFlags,
    pub hit_bounds: Rect<u32>,
    pub display_bounds: Rect<u32>,
    /// Accumulator of the floating damage popup shown over the NPC.
    pub popup_value: i32,
}

/// Whether a bullet's box overlaps an NPC's hit box, in one of the two
/// hit-testing modes: a shootable target is tested against the bullet's
/// enlarged enemy-hit box, an invulnerable one against its standard hit
/// box.
pub open spec fn bullet_hits_npc(npc: Npc, b: Bullet) -> bool {
    ||| {
        &&& npc.npc_flags.shootable
        &&& npc.x - npc.hit_bounds.right < b.x + b.enemy_hit_width
        &&& npc.x + npc.hit_bounds.right > b.x - b.enemy_hit_width
        &&& npc.y - npc.hit_bounds.top < b.y + b.enemy_hit_height
        &&& npc.y + npc.hit_bounds.bottom > b.y - b.enemy_hit_height
    }
    ||| {
        &&& npc.npc_flags.invulnerable
        &&& npc.x - npc.hit_bounds.right < b.x + b.hit_bounds.right
        &&& npc.x + npc.hit_bounds.right > b.x - b.hit_bounds.left
        &&& npc.y - npc.hit_bounds.top < b.y + b.hit_bounds.bottom
        &&& npc.y + npc.hit_bounds.bottom > b.y - b.hit_bounds.top
    }
}

impl Npc {
    pub fn collides_with_bullet(&self, bullet: &Bullet) -> (r: bool)
        ensures
            r == bullet_hits_npc(*self, *bullet),
    {
        (self.npc_flags.shootable
            && (self.x as i64 - self.hit_bounds.right as i64) < (bullet.x as i64
                + bullet.enemy_hit_width as i64)
            && (self.x as i64 + self.hit_bounds.right as i64) > (bullet.x as i64
                - bullet.enemy_hit_width as i64)
            && (self.y as i64 - self.hit_bounds.top as i64) < (bullet.y as i64
                + bullet.enemy_hit_height as i64)
            && (self.y as i64 + self.hit_bounds.bottom as i64) > (bullet.y as i64
                - bullet.enemy_hit_height as i64)) || (self.npc_flags.invulnerable
            && (self.x as i64 - self.hit_bounds.right as i64) < (bullet.x as i64
                + bullet.hit_bounds.right as i64)
            && (self.x as i64 + self.hit_bounds.right as i64) > (bullet.x as i64
                - bullet.hit_bounds.left as i64)
            && (self.y as i64 - self.hit_bounds.top as i64) < (bullet.y as i64
                + bullet.hit_bounds.bottom as i64)
            && (self.y as i64 + self.hit_bounds.bottom as i64) > (bullet.y as i64
                - bullet.hit_bounds.top as i64))
    }
}

/// A boss is an ordered sequence of parts; part 0 is the aggregate part
/// that may hold the whole boss's health. Each part has its own hurt and
/// death sound.
pub struct BossNpc {
    pub boss_type: u16,
    pub parts: Vec<Npc>,
    pub hurt_sound: Vec<u8>,
    pub death_sound: Vec<u8>,
}

/// The per-part sound tables cover every part.
pub open spec fn boss_wf(b: BossNpc) -> bool {
    &&& b.hurt_sound@.len() == b.parts@.len()
    &&& b.death_sound@.len() == b.parts@.len()
}

impl BossNpc {
    pub fn new() -> (b: BossNpc)
        ensures
            b.boss_type == 0,
            b.parts@.len() == 0,
            boss_wf(b),
    {
        BossNpc { boss_type: 0, parts: Vec::new(), hurt_sound: Vec::new(), death_sound: Vec::new() }
    }
}

} // verus!
