//! Weapons and projectiles. Firing patterns are external data-driven
//! state machines; the core owns the bullet set they fill and the weapon
//! identity the HUD and pipeline read.

use vstd::prelude::*;

use crate::common::{Cond, Direction, Rect};
use crate::player::{Player, TargetPlayer};
use crate::state::SharedState;

verus! {

#[derive(Clone, Copy, PartialEq, Eq, Structural, Debug)]
pub enum WeaponType {
    Unarmed,
    Snake,
    PoloStar,
    Fireball,
    MachineGun,
    MissileLauncher,
    Bubbler,
    Blade,
    SuperMissileLauncher,
    Nemesis,
    Spur,
}

/// The numeric weapon tag the HUD and player sprite read.
pub open spec fn weapon_type_id(w: WeaponType) -> u8 {
    match w {
        WeaponType::Unarmed => 0,
        WeaponType::Snake => 1,
        WeaponType::PoloStar => 2,
        WeaponType::Fireball => 3,
        WeaponType::MachineGun => 4,
        WeaponType::MissileLauncher => 5,
        WeaponType::Bubbler => 7,
        WeaponType::Blade => 9,
        WeaponType::SuperMissileLauncher => 10,
        WeaponType::Nemesis => 12,
        WeaponType::Spur => 13,
    }
}

impl WeaponType {
    pub fn id(&self) -> (r: u8)
        ensures
            r == weapon_type_id(*self),
    {
        match self {
            WeaponType::Unarmed => 0,
            WeaponType::Snake => 1,
            WeaponType::PoloStar => 2,
            WeaponType::Fireball => 3,
            WeaponType::MachineGun => 4,
            WeaponType::MissileLauncher => 5,
            WeaponType::Bubbler => 7,
            WeaponType::Blade => 9,
            WeaponType::SuperMissileLauncher => 10,
            WeaponType::Nemesis => 12,
            WeaponType::Spur => 13,
        }
    }
}

#[derive(Clone, Copy, PartialEq, Eq, Structural, Debug)]
pub struct Weapon {
    pub wtype: WeaponType,
    pub level: u8,
    pub experience: u16,
    pub ammo: u16,
    pub max_ammo: u16,
}

impl Weapon {
    pub fn new(wtype: WeaponType, level: u8, experience: u16, ammo: u16, max_ammo: u16) -> (w: Weapon)
        ensures
            w == (Weapon { wtype, level, experience, ammo, max_ammo }),
    {
        Weapon { wtype, level, experience, ammo, max_ammo }
    }

    /// The missile launcher's firing logic is driven by external weapon
    /// tables; within this core its tick leaves every simulation field
    /// untouched.
    pub fn tick_missile_launcher(
        &mut self,
        player: &mut Player,
        _player_id: TargetPlayer,
        bullet_manager: &mut BulletManager,
        state: &mut SharedState,
    )
        ensures
            *final(self) == *old(self),
            *final(player) == *old(player),
            final(bullet_manager).bullets@ == old(bullet_manager).bullets@,
            *final(state) == *old(state),
    {
    }
}

#[derive(Clone, Copy, PartialEq, Eq, Structural, Debug, Default)]
pub struct WeaponFlags {
    pub flag_x10: bool,
}

#[derive(Clone, Copy, PartialEq, Eq, Structural, Debug)]
pub struct Bullet {
    pub btype: u16,
    pub x: i32,
    pub y: i32,
    pub prev_x: i32,
    pub prev_y: i32,
    pub life: u16,
    pub damage: i16,
    pub enemy_hit_width: u16,
    pub enemy_hit_height: u16,
    pub cond: Cond,
    pub weapon_flags: WeaponFlags,
    pub hit_bounds: Rect<u32>,
    pub direction: Direction,
}

/// The bullet types that pass through obstacles without dissipating.
pub open spec fn is_pass_through_type(btype: u16) -> bool {
    btype == 13 || btype == 14 || btype == 15 || btype == 28 || btype == 29 || btype == 30
}

impl Bullet {
    pub fn is_pass_through(&self) -> (r: bool)
        ensures
            r == is_pass_through_type(self.btype),
    {
        self.btype == 13 || self.btype == 14 || self.btype == 15 || self.btype == 28
            || self.btype == 29 || self.btype == 30
    }
}

pub struct BulletManager {
    pub bullets: Vec<Bullet>,
}

impl BulletManager {
    pub fn new() -> (m: BulletManager)
        ensures
            m.bullets@.len() == 0,
    {
        BulletManager { bullets: Vec::new() }
    }
}

} // verus!
