//! The camera frame: authoritative and previous positions, a tracked
//! subject, and the per-tick target selection. Easing the position toward
//! the target (the `wait` smoothing) is the external frame updater's job;
//! choosing the target is the core's.

use vstd::prelude::*;

use crate::common::{interpolate_fix9, sclamp, tdiv, tdiv_i64, clamp_i64};
use crate::npc::Npc;
use crate::player::Player;

verus! {

/// Which subject the camera follows.
#[derive(Clone, Copy, PartialEq, Eq, Structural, Debug)]
pub enum UpdateTarget {
    Player,
    NPC(u16),
    Boss(u16),
}

#[derive(Clone, Copy, PartialEq, Eq, Structural, Debug)]
pub struct Frame {
    pub x: i32,
    pub y: i32,
    pub prev_x: i32,
    pub prev_y: i32,
    pub update_target: UpdateTarget,
    pub target_x: i32,
    pub target_y: i32,
    pub wait: i32,
}

/// The horizontal half-window the cooperative camera may drift from the
/// primary player.
pub const COOP_WINDOW: i32 = 0x8000;

/// Both players are alive, visible, and close enough on screen that the
/// camera blends between them.
pub open spec fn coop_tracking(p1: Player, p2: Player) -> bool {
    &&& p2.cond.alive
    &&& !p2.cond.hidden
    &&& -122880 < p1.x - p2.x < 122880
    &&& -102400 < p1.y - p2.y < 102400
}

/// The camera target for the tick, from the frame's tracked subject:
///
/// - a single tracked player: that player's own camera target;
/// - two cooperating players: a blend weighted 2:1 toward the primary,
///   with the horizontal component clamped to a window around the primary
///   and the vertical component pinned to the primary's position;
/// - an NPC or boss part by id: its position while it is alive, and the
///   previous target, unchanged, when it is missing or dead.
pub open spec fn camera_target_spec(
    frame: Frame,
    p1: Player,
    p2: Player,
    npcs: Seq<Npc>,
    boss_parts: Seq<Npc>,
) -> (int, int) {
    match frame.update_target {
        UpdateTarget::Player => {
            if coop_tracking(p1, p2) {
                let bx = tdiv(p1.target_x * 2 + p2.target_x, 3);
                let by = tdiv(p1.target_y * 2 + p2.target_y, 3);
                let tx = sclamp(bx, p1.x - COOP_WINDOW, p1.x + COOP_WINDOW);
                let ty = sclamp(by, p1.y as int, p1.y as int);
                (tx, ty)
            } else {
                (p1.target_x as int, p1.target_y as int)
            }
        },
        UpdateTarget::NPC(id) => {
            if id < npcs.len() && npcs[id as int].cond.alive {
                (npcs[id as int].x as int, npcs[id as int].y as int)
            } else {
                (frame.target_x as int, frame.target_y as int)
            }
        },
        UpdateTarget::Boss(id) => {
            if id < boss_parts.len() && boss_parts[id as int].cond.alive {
                (boss_parts[id as int].x as int, boss_parts[id as int].y as int)
            } else {
                (frame.target_x as int, frame.target_y as int)
            }
        },
    }
}

impl Frame {
    /// Recomputes the camera target from the tracked subject. Only the
    /// camera's own target changes; no tracked subject is mutated (they
    /// are only borrowed). With two cooperating players the horizontal
    /// target always stays within `COOP_WINDOW` of the primary player;
    /// with the primary alone it equals the primary's own target exactly.
    pub fn update_camera_target(
        &mut self,
        p1: &Player,
        p2: &Player,
        npcs: &Vec<Npc>,
        boss_parts: &Vec<Npc>,
    )
        requires
            i32::MIN + COOP_WINDOW <= p1.x <= i32::MAX - COOP_WINDOW,
        ensures
            final(self).target_x as int == camera_target_spec(
                *old(self),
                *p1,
                *p2,
                npcs@,
                boss_parts@,
            ).0,
            final(self).target_y as int == camera_target_spec(
                *old(self),
                *p1,
                *p2,
                npcs@,
                boss_parts@,
            ).1,
            final(self).x == old(self).x,
            final(self).y == old(self).y,
            final(self).prev_x == old(self).prev_x,
            final(self).prev_y == old(self).prev_y,
            final(self).wait == old(self).wait,
            final(self).update_target == old(self).update_target,
            old(self).update_target is Player && coop_tracking(*p1, *p2) ==> {
                &&& p1.x - COOP_WINDOW <= final(self).target_x <= p1.x + COOP_WINDOW
                &&& final(self).target_y == p1.y
            },
            old(self).update_target is Player && !coop_tracking(*p1, *p2) ==> {
                &&& final(self).target_x == p1.target_x
                &&& final(self).target_y == p1.target_y
            },
    {
        match self.update_target {
            UpdateTarget::Player => {
                let dx: i64 = p1.x as i64 - p2.x as i64;
                let dy: i64 = p1.y as i64 - p2.y as i64;
                if p2.cond.alive && !p2.cond.hidden && -122880 < dx && dx < 122880 && -102400 < dy
                    && dy < 102400 {
                    let bx = tdiv_i64(p1.target_x as i64 * 2 + p2.target_x as i64, 3);
                    let by = tdiv_i64(p1.target_y as i64 * 2 + p2.target_y as i64, 3);
                    self.target_x = clamp_i64(
                        bx,
                        p1.x as i64 - COOP_WINDOW as i64,
                        p1.x as i64 + COOP_WINDOW as i64,
                    ) as i32;
                    self.target_y = clamp_i64(by, p1.y as i64, p1.y as i64) as i32;
                } else {
                    self.target_x = p1.target_x;
                    self.target_y = p1.target_y;
                }
            },
            UpdateTarget::NPC(id) => {
                if (id as usize) < npcs.len() {
                    let npc = &npcs[id as usize];
                    if npc.cond.alive {
                        self.target_x = npc.x;
                        self.target_y = npc.y;
                    }
                }
            },
            UpdateTarget::Boss(id) => {
                if (id as usize) < boss_parts.len() {
                    let part = &boss_parts[id as usize];
                    if part.cond.alive {
                        self.target_x = part.x;
                        self.target_y = part.y;
                    }
                }
            },
        }
    }

    /// The camera position interpolated between the previous and the
    /// current tick, for the render boundary. `t_num / 512` is the frame
    /// fraction in `[0, 1]`.
    pub fn xy_interpolated(&self, t_num: u16) -> (r: (i32, i32))
        requires
            t_num <= 512,
        ensures
            r.0 == self.prev_x + tdiv((self.x - self.prev_x) * t_num, 512),
            r.1 == self.prev_y + tdiv((self.y - self.prev_y) * t_num, 512),
    {
        (interpolate_fix9(self.prev_x, self.x, t_num), interpolate_fix9(self.prev_y, self.y, t_num))
    }
}

} // verus!
