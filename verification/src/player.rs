//! Player state as the simulation core sees it: authoritative and
//! previous-tick positions, velocity, camera targets, health and the
//! damage accumulator drained by the tick pipeline.

use vstd::prelude::*;

use crate::common::{Cond, Direction, Rect};

verus! {

#[derive(Clone, Copy, PartialEq, Eq, Structural, Debug)]
pub enum TargetPlayer {
    Player1,
    Player2,
}

#[derive(Clone, Copy, PartialEq, Eq, Structural, Debug)]
pub struct Player {
    pub x: i32,
    pub y: i32,
    pub prev_x: i32,
    pub prev_y: i32,
    pub vel_x: i32,
    pub vel_y: i32,
    pub target_x: i32,
    pub target_y: i32,
    pub camera_target_x: i32,
    pub camera_target_y: i32,
    pub life: u16,
    pub max_life: u16,
    pub damage: u16,
    pub current_weapon: u8,
    pub cond: Cond,
    pub equip_arms_barrier: bool,
    pub hit_bounds: Rect<u32>,
    pub display_bounds: Rect<u32>,
    pub direction: Direction,
}

impl Player {
    pub fn new() -> (p: Player)
        ensures
            p == Player::default_spec(),
    {
        Player {
            x: 0,
            y: 0,
            prev_x: 0,
            prev_y: 0,
            vel_x: 0,
            vel_y: 0,
            target_x: 0,
            target_y: 0,
            camera_target_x: 0,
            camera_target_y: 0,
            life: 0,
            max_life: 0,
            damage: 0,
            current_weapon: 0,
            cond: Cond {
                alive: false,
                hidden: false,
                interacted: false,
                explode_die: false,
                damage_boss: false,
                drs_novanish: false,
            },
            equip_arms_barrier: false,
            hit_bounds: Rect { left: 0, top: 0, right: 0, bottom: 0 },
            display_bounds: Rect { left: 0, top: 0, right: 0, bottom: 0 },
            direction: Direction::Right,
        }
    }

    /// The blank player a scene starts with, before level loading and
    /// scripts shape it.
    pub open spec fn default_spec() -> Player {
        Player {
            x: 0,
            y: 0,
            prev_x: 0,
            prev_y: 0,
            vel_x: 0,
            vel_y: 0,
            target_x: 0,
            target_y: 0,
            camera_target_x: 0,
            camera_target_y: 0,
            life: 0,
            max_life: 0,
            damage: 0,
            current_weapon: 0,
            cond: Cond {
                alive: false,
                hidden: false,
                interacted: false,
                explode_die: false,
                damage_boss: false,
                drs_novanish: false,
            },
            equip_arms_barrier: false,
            hit_bounds: Rect { left: 0, top: 0, right: 0, bottom: 0 },
            display_bounds: Rect { left: 0, top: 0, right: 0, bottom: 0 },
            direction: Direction::Right,
        }
    }
}

} // verus!
