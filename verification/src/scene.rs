//! The game scene and its tick orchestrator: the fixed-order pipeline
//! that advances players, NPCs, collisions, the camera and the water
//! surfaces once per simulated tick, and snapshots previous positions for
//! interpolated rendering.
//!
//! Collaborator work (entity AI ticks, map collision, weapon logic, the
//! script interpreter) happens outside the core; the pipeline marks the
//! point of each collaborator tick with an `Ext*` effect so the embedding
//! performs it in order, and the core's own steps are verified against
//! the spec functions below.

use vstd::prelude::*;

use crate::collision::{
    boss_parts_fold, lemma_boss_parts_fold_control, lemma_npcs_fold_control, npcs_fold,
    resolve_boss_parts, resolve_npc_list,
};
use crate::common::{fade_step, fade_tick, FadeState};
use crate::effects::{CaretType, Effect};
use crate::frame::{camera_target_spec, Frame, UpdateTarget};
use crate::inventory::{Inventory, TakeExperienceResult};
use crate::npc::{boss_wf, BossNpc, Npc};
use crate::player::{Player, TargetPlayer};
use crate::state::{ScriptMode, SharedState, TextScriptExecutionState};
use crate::water::{impulse_cols, renderer_wf, water_tick_spec, DynamicWaterColumn, WaterRenderer};
use crate::weapon::{weapon_type_id, BulletManager, WeaponType};
use crate::common::Direction;

verus! {

/// Ticks the skip control must be held before a cutscene is skipped.
pub const CUTSCENE_SKIP_WAIT: u16 = 50;

#[derive(Clone, Copy, PartialEq, Eq, Structural, Debug, Hash)]
pub enum TileLayer {
    Background,
    Middleground,
    Foreground,
    Snack,
}

/// The slice of HUD state the pipeline maintains.
#[derive(Clone, Copy, PartialEq, Eq, Structural, Debug, Default)]
pub struct Hud {
    pub visible: bool,
    pub has_player2: bool,
}

/// Per-tick facts only external collaborators know: controller edges and
/// what the inventory reported when experience was drained.
#[derive(Clone, Copy, PartialEq, Eq, Structural, Debug)]
pub struct TickInputs {
    pub p1_xp_result: TakeExperienceResult,
    pub p2_xp_result: TakeExperienceResult,
    pub p1_trigger_inventory: bool,
    pub p1_inventory_held: bool,
    pub p1_trigger_menu_ok: bool,
}

pub struct GameScene {
    pub tick: u32,
    pub water_renderer: WaterRenderer,
    pub hud_player1: Hud,
    pub hud_player2: Hud,
    pub frame: Frame,
    pub player1: Player,
    pub player2: Player,
    pub inventory_player1: Inventory,
    pub inventory_player2: Inventory,
    pub stage_id: usize,
    pub npc_list: Vec<Npc>,
    pub boss: BossNpc,
    pub bullet_manager: BulletManager,
    pub intro_mode: bool,
    pub map_name_counter: u16,
    pub skip_counter: u16,
}

/// What the scene needs of its own data for a tick to be meaningful:
/// sound tables matching the boss parts, bounded part sizes, well-formed
/// water, and a camera-safe primary player position.
pub open spec fn scene_wf(s: GameScene) -> bool {
    &&& boss_wf(s.boss)
    &&& forall|k: int| 0 <= k < s.boss.parts@.len() ==> (#[trigger] s.boss.parts@[k]).size <= 16
    &&& renderer_wf(s.water_renderer)
    &&& i32::MIN + crate::frame::COOP_WINDOW <= s.player1.x <= i32::MAX
        - crate::frame::COOP_WINDOW
}

/// The NPC sequence with every live entry's previous position set to its
/// current one.
pub open spec fn npcs_snapshot_spec(npcs: Seq<Npc>) -> Seq<Npc> {
    Seq::new(
        npcs.len(),
        |i: int|
            if npcs[i].cond.alive {
                Npc { prev_x: npcs[i].x, prev_y: npcs[i].y, ..npcs[i] }
            } else {
                npcs[i]
            },
    )
}

/// One water surface as mathematical values: its tile anchor and its
/// column states.
pub struct WaterSurfaceModel {
    pub x: u16,
    pub y: u16,
    pub end_x: u16,
    pub columns: Seq<DynamicWaterColumn>,
}

/// Everything one world tick reads or rewrites, as mathematical values:
/// the scene's mutable components, the inputs it consults (inventories
/// and boss sound tables, which pass through unchanged), and the shared
/// control state. The outer `tick` iterates `world_tick_model` over this
/// record, so the whole pipeline has one functional description.
pub struct WorldModel {
    pub hud_player1: Hud,
    pub hud_player2: Hud,
    pub player1: Player,
    pub player2: Player,
    pub inventory_player1: Inventory,
    pub inventory_player2: Inventory,
    pub npcs: Seq<Npc>,
    pub boss_parts: Seq<Npc>,
    pub hurt_sound: Seq<u8>,
    pub death_sound: Seq<u8>,
    pub bullets: Seq<crate::weapon::Bullet>,
    pub frame: Frame,
    pub waters: Seq<WaterSurfaceModel>,
    pub map_name_counter: u16,
    pub control_flags: crate::state::ControlFlags,
    pub script_mode: ScriptMode,
}

pub open spec fn water_surface_model(w: crate::water::DynamicWater) -> WaterSurfaceModel {
    WaterSurfaceModel { x: w.x, y: w.y, end_x: w.end_x, columns: w.columns@ }
}

/// The world-tick view of a scene and its shared state.
pub open spec fn scene_world_model(s: GameScene, st: SharedState) -> WorldModel {
    WorldModel {
        hud_player1: s.hud_player1,
        hud_player2: s.hud_player2,
        player1: s.player1,
        player2: s.player2,
        inventory_player1: s.inventory_player1,
        inventory_player2: s.inventory_player2,
        npcs: s.npc_list@,
        boss_parts: s.boss.parts@,
        hurt_sound: s.boss.hurt_sound@,
        death_sound: s.boss.death_sound@,
        bullets: s.bullet_manager.bullets@,
        frame: s.frame,
        waters: Seq::new(
            s.water_renderer.water_surfaces@.len(),
            |k: int| water_surface_model(s.water_renderer.water_surfaces@[k]),
        ),
        map_name_counter: s.map_name_counter,
        control_flags: st.control_flags,
        script_mode: st.script_mode,
    }
}

/// One full world tick as a function of the model: HUD flags and weapon
/// tags, the damage-to-experience conversion, the collision folds, the
/// camera target, the control-phase decisions, the water surfaces with
/// the tracked player's impulse, and the map-name countdown — together
/// with the exact effect sequence the tick emits.
pub open spec fn world_tick_model(m: WorldModel, inputs: TickInputs) -> (WorldModel, Seq<Effect>) {
    let p1a = Player { current_weapon: current_weapon_tag(m.inventory_player1), ..m.player1 };
    let p2a = Player { current_weapon: current_weapon_tag(m.inventory_player2), ..m.player2 };
    let d1 = damage_xp_spec(p1a, TargetPlayer::Player1, inputs.p1_xp_result is LevelDown);
    let d2 = damage_xp_spec(p2a, TargetPlayer::Player2, inputs.p2_xp_result is LevelDown);
    let nf = npcs_fold(
        m.npcs,
        m.npcs.len() as int,
        m.bullets,
        m.player1.cond.alive,
        can_drop_missile_spec(m.inventory_player1, m.inventory_player2),
        m.control_flags,
    );
    let bf = boss_parts_fold(
        m.boss_parts,
        m.boss_parts.len() as int,
        nf.1,
        m.player1.cond.alive,
        m.hurt_sound,
        m.death_sound,
        nf.2,
    );
    let target = camera_target_spec(m.frame, d1.0, d2.0, nf.0, bf.0);
    let control = m.control_flags.control_enabled;
    let open_inventory = control && inputs.p1_trigger_inventory;
    let p1c = if open_inventory {
        Player { cond: crate::common::Cond { interacted: false, ..d1.0.cond }, ..d1.0 }
    } else {
        d1.0
    };
    let next = WorldModel {
        hud_player1: Hud {
            visible: m.player1.cond.alive,
            has_player2: m.player2.cond.alive && !m.player2.cond.hidden,
        },
        hud_player2: Hud {
            visible: m.player2.cond.alive,
            has_player2: m.player1.cond.alive && !m.player1.cond.hidden,
        },
        player1: p1c,
        player2: d2.0,
        npcs: nf.0,
        boss_parts: bf.0,
        bullets: bf.1,
        frame: Frame { target_x: target.0 as i32, target_y: target.1 as i32, ..m.frame },
        waters: Seq::new(
            m.waters.len(),
            |k: int|
                WaterSurfaceModel {
                    columns: water_tick_spec(
                        impulse_cols(
                            m.waters[k].columns,
                            m.waters[k].x,
                            m.waters[k].y,
                            m.waters[k].end_x,
                            p1c,
                        ),
                    ),
                    ..m.waters[k]
                },
        ),
        map_name_counter: if m.map_name_counter > 0 {
            (m.map_name_counter - 1) as u16
        } else {
            0u16
        },
        control_flags: bf.2,
        script_mode: if open_inventory {
            ScriptMode::Inventory
        } else {
            m.script_mode
        },
        ..m
    };
    let evs = seq![Effect::ExtTickPlayers] + d1.1 + d2.1 + seq![
        Effect::ExtTickNpcsAndBoss,
        Effect::ExtTickMapCollisions,
        Effect::ExtTickPlayerNpcCollisions,
    ] + nf.3 + bf.3 + seq![Effect::ExtTickBullets, Effect::ExtTickCarets, Effect::ExtEaseCamera] + (
    if control {
        seq![Effect::ExtTickWeaponsAndHud]
    } else {
        Seq::<Effect>::empty()
    });
    (next, evs)
}

/// One round of the scene tick's inner loop: the world pipeline when the
/// script system is in world mode with world ticking enabled, the stage
/// select or inventory screen's tick marker otherwise, followed by the
/// flash and script-interpreter markers every round.
pub open spec fn scene_round_model(m: WorldModel, inputs: TickInputs) -> (WorldModel, Seq<Effect>) {
    let dispatched = if m.script_mode is World && m.control_flags.tick_world {
        world_tick_model(m, inputs)
    } else if m.script_mode is StageSelect {
        (m, seq![Effect::ExtTickStageSelect])
    } else if m.script_mode is Inventory {
        (m, seq![Effect::ExtTickInventoryUI])
    } else {
        (m, Seq::<Effect>::empty())
    };
    (dispatched.0, dispatched.1 + seq![Effect::ExtTickFlash, Effect::ExtRunTextScript])
}

/// The inner loop iterated `k` rounds, concatenating each round's
/// effects.
pub open spec fn scene_rounds_model(m: WorldModel, inputs: TickInputs, k: nat) -> (
    WorldModel,
    Seq<Effect>,
)
    decreases k,
{
    if k == 0 {
        (m, Seq::<Effect>::empty())
    } else {
        let prev = scene_rounds_model(m, inputs, (k - 1) as nat);
        let step = scene_round_model(prev.0, inputs);
        (step.0, prev.1 + step.1)
    }
}

impl GameScene {
    /// An empty scene for the given stage, before level loading fills it:
    /// blank players, no NPCs, no bullets, no water, and a camera frame
    /// waiting on the primary player with the standard smoothing constant.
    pub fn new(stage_id: usize) -> (s: GameScene)
        ensures
            s.tick == 0,
            s.stage_id == stage_id,
            s.player1 == Player::default_spec(),
            s.player2 == Player::default_spec(),
            s.npc_list@.len() == 0,
            s.bullet_manager.bullets@.len() == 0,
            s.boss.parts@.len() == 0,
            s.water_renderer.water_surfaces@.len() == 0,
            s.water_renderer.depth_regions@.len() == 0,
            s.water_renderer.surf_regions@.len() == 0,
            s.hud_player1 == (Hud { visible: false, has_player2: false }),
            s.hud_player2 == (Hud { visible: false, has_player2: false }),
            s.frame == (Frame {
                x: 0,
                y: 0,
                prev_x: 0,
                prev_y: 0,
                update_target: UpdateTarget::Player,
                target_x: 0,
                target_y: 0,
                wait: 16,
            }),
            s.intro_mode == false,
            s.map_name_counter == 0,
            s.skip_counter == 0,
            s.inventory_player1.weapons@.len() == 0,
            s.inventory_player2.weapons@.len() == 0,
            scene_wf(s),
    {
        GameScene {
            tick: 0,
            water_renderer: WaterRenderer::new(),
            hud_player1: Hud { visible: false, has_player2: false },
            hud_player2: Hud { visible: false, has_player2: false },
            frame: Frame {
                x: 0,
                y: 0,
                prev_x: 0,
                prev_y: 0,
                update_target: UpdateTarget::Player,
                target_x: 0,
                target_y: 0,
                wait: 16,
            },
            player1: Player::new(),
            player2: Player::new(),
            inventory_player1: Inventory::new(),
            inventory_player2: Inventory::new(),
            stage_id,
            npc_list: Vec::new(),
            boss: BossNpc::new(),
            bullet_manager: BulletManager::new(),
            intro_mode: false,
            map_name_counter: 0,
            skip_counter: 0,
        }
    }

    /// Shows the map name banner for this many ticks.
    pub fn display_map_name(&mut self, ticks: u16)
        ensures
            *final(self) == (GameScene { map_name_counter: ticks, ..*old(self) }),
    {
        self.map_name_counter = ticks;
    }

    /// Drops the second player in at the first player's position, moving
    /// with the same velocity and sharing the first player's visibility;
    /// nothing else in the scene changes.
    pub fn add_player2(&mut self)
        ensures
            final(self).player2.cond.alive,
            final(self).player2.cond.hidden == old(self).player1.cond.hidden,
            final(self).player2.x == old(self).player1.x,
            final(self).player2.y == old(self).player1.y,
            final(self).player2.vel_x == old(self).player1.vel_x,
            final(self).player2.vel_y == old(self).player1.vel_y,
            *final(self) == (GameScene {
                player2: Player {
                    cond: crate::common::Cond {
                        alive: true,
                        hidden: old(self).player1.cond.hidden,
                        ..old(self).player2.cond
                    },
                    x: old(self).player1.x,
                    y: old(self).player1.y,
                    vel_x: old(self).player1.vel_x,
                    vel_y: old(self).player1.vel_y,
                    ..old(self).player2
                },
                ..*old(self)
            }),
    {
        self.player2.cond.alive = true;
        self.player2.cond.hidden = self.player1.cond.hidden;
        self.player2.x = self.player1.x;
        self.player2.y = self.player1.y;
        self.player2.vel_x = self.player1.vel_x;
        self.player2.vel_y = self.player1.vel_y;
    }

    /// Marks the second player as gone; nothing else changes.
    pub fn drop_player2(&mut self)
        ensures
            *final(self) == (GameScene {
                player2: Player {
                    cond: crate::common::Cond { alive: false, ..old(self).player2.cond },
                    ..old(self).player2
                },
                ..*old(self)
            }),
    {
        self.player2.cond.alive = false;
    }

    /// Captures the "previous" position snapshot of every live entity and
    /// of the camera, the state the renderer interpolates from. Called
    /// exactly once per tick, after all position-mutating steps.
    pub fn snapshot_prev_positions(&mut self)
        ensures
            final(self).frame == (Frame {
                prev_x: old(self).frame.x,
                prev_y: old(self).frame.y,
                ..old(self).frame
            }),
            final(self).player1 == (Player {
                prev_x: old(self).player1.x,
                prev_y: old(self).player1.y,
                ..old(self).player1
            }),
            final(self).player2 == (Player {
                prev_x: old(self).player2.x,
                prev_y: old(self).player2.y,
                ..old(self).player2
            }),
            final(self).npc_list@.len() == old(self).npc_list@.len(),
            forall|i: int|
                0 <= i < old(self).npc_list@.len() ==> #[trigger] final(self).npc_list@[i] == (
                if old(self).npc_list@[i].cond.alive {
                    Npc {
                        prev_x: old(self).npc_list@[i].x,
                        prev_y: old(self).npc_list@[i].y,
                        ..old(self).npc_list@[i]
                    }
                } else {
                    old(self).npc_list@[i]
                }),
            final(self).boss.parts@.len() == old(self).boss.parts@.len(),
            forall|i: int|
                0 <= i < old(self).boss.parts@.len() ==> #[trigger] final(self).boss.parts@[i] == (
                if old(self).boss.parts@[i].cond.alive {
                    Npc {
                        prev_x: old(self).boss.parts@[i].x,
                        prev_y: old(self).boss.parts@[i].y,
                        ..old(self).boss.parts@[i]
                    }
                } else {
                    old(self).boss.parts@[i]
                }),
            final(self).bullet_manager.bullets@.len() == old(self).bullet_manager.bullets@.len(),
            forall|i: int|
                0 <= i < old(self).bullet_manager.bullets@.len()
                    ==> #[trigger] final(self).bullet_manager.bullets@[i] == (
                if old(self).bullet_manager.bullets@[i].cond.alive {
                    crate::weapon::Bullet {
                        prev_x: old(self).bullet_manager.bullets@[i].x,
                        prev_y: old(self).bullet_manager.bullets@[i].y,
                        ..old(self).bullet_manager.bullets@[i]
                    }
                } else {
                    old(self).bullet_manager.bullets@[i]
                }),
            final(self).water_renderer == old(self).water_renderer,
            final(self).boss.boss_type == old(self).boss.boss_type,
            final(self).boss.hurt_sound@ == old(self).boss.hurt_sound@,
            final(self).boss.death_sound@ == old(self).boss.death_sound@,
            final(self).tick == old(self).tick,
            final(self).hud_player1 == old(self).hud_player1,
            final(self).hud_player2 == old(self).hud_player2,
            final(self).map_name_counter == old(self).map_name_counter,
            final(self).skip_counter == old(self).skip_counter,
            final(self).stage_id == old(self).stage_id,
            final(self).intro_mode == old(self).intro_mode,
            final(self).inventory_player1 == old(self).inventory_player1,
            final(self).inventory_player2 == old(self).inventory_player2,
    {
        self.frame.prev_x = self.frame.x;
        self.frame.prev_y = self.frame.y;
        self.player1.prev_x = self.player1.x;
        self.player1.prev_y = self.player1.y;
        self.player2.prev_x = self.player2.x;
        self.player2.prev_y = self.player2.y;

        let ghost npcs0 = self.npc_list@;
        let n = self.npc_list.len();
        let mut i: usize = 0;
        while i < n
            invariant
                i <= n,
                n == npcs0.len(),
                self.npc_list@.len() == n,
                self.frame == (Frame {
                    prev_x: old(self).frame.x,
                    prev_y: old(self).frame.y,
                    ..old(self).frame
                }),
                self.player1 == (Player {
                    prev_x: old(self).player1.x,
                    prev_y: old(self).player1.y,
                    ..old(self).player1
                }),
                self.player2 == (Player {
                    prev_x: old(self).player2.x,
                    prev_y: old(self).player2.y,
                    ..old(self).player2
                }),
                self.water_renderer == old(self).water_renderer,
                self.hud_player1 == old(self).hud_player1,
                self.hud_player2 == old(self).hud_player2,
                self.tick == old(self).tick,
                self.map_name_counter == old(self).map_name_counter,
                self.skip_counter == old(self).skip_counter,
                self.stage_id == old(self).stage_id,
                self.intro_mode == old(self).intro_mode,
                self.inventory_player1 == old(self).inventory_player1,
                self.inventory_player2 == old(self).inventory_player2,
                self.boss.boss_type == old(self).boss.boss_type,
                self.boss.hurt_sound@ == old(self).boss.hurt_sound@,
                self.boss.death_sound@ == old(self).boss.death_sound@,
                self.boss.parts@ == old(self).boss.parts@,
                self.bullet_manager.bullets@ == old(self).bullet_manager.bullets@,
                forall|k: int|
                    0 <= k < i ==> #[trigger] self.npc_list@[k] == (if npcs0[k].cond.alive {
                        Npc { prev_x: npcs0[k].x, prev_y: npcs0[k].y, ..npcs0[k] }
                    } else {
                        npcs0[k]
                    }),
                forall|k: int| i <= k < n ==> self.npc_list@[k] == npcs0[k],
            decreases n - i,
        {
            let mut npc = self.npc_list[i];
            if npc.cond.alive {
                npc.prev_x = npc.x;
                npc.prev_y = npc.y;
                self.npc_list[i] = npc;
            }
            i = i + 1;
        }

        let ghost parts0 = self.boss.parts@;
        let np = self.boss.parts.len();
        let mut i: usize = 0;
        while i < np
            invariant
                i <= np,
                np == parts0.len(),
                self.boss.parts@.len() == np,
                self.frame == (Frame {
                    prev_x: old(self).frame.x,
                    prev_y: old(self).frame.y,
                    ..old(self).frame
                }),
                self.player1 == (Player {
                    prev_x: old(self).player1.x,
                    prev_y: old(self).player1.y,
                    ..old(self).player1
                }),
                self.player2 == (Player {
                    prev_x: old(self).player2.x,
                    prev_y: old(self).player2.y,
                    ..old(self).player2
                }),
                self.water_renderer == old(self).water_renderer,
                self.hud_player1 == old(self).hud_player1,
                self.hud_player2 == old(self).hud_player2,
                self.tick == old(self).tick,
                self.map_name_counter == old(self).map_name_counter,
                self.skip_counter == old(self).skip_counter,
                self.stage_id == old(self).stage_id,
                self.intro_mode == old(self).intro_mode,
                self.inventory_player1 == old(self).inventory_player1,
                self.inventory_player2 == old(self).inventory_player2,
                self.boss.boss_type == old(self).boss.boss_type,
                self.boss.hurt_sound@ == old(self).boss.hurt_sound@,
                self.boss.death_sound@ == old(self).boss.death_sound@,
                self.npc_list@ == npcs_snapshot_spec(old(self).npc_list@),
                self.bullet_manager.bullets@ == old(self).bullet_manager.bullets@,
                forall|k: int|
                    0 <= k < i ==> #[trigger] self.boss.parts@[k] == (if parts0[k].cond.alive {
                        Npc { prev_x: parts0[k].x, prev_y: parts0[k].y, ..parts0[k] }
                    } else {
                        parts0[k]
                    }),
                forall|k: int| i <= k < np ==> self.boss.parts@[k] == parts0[k],
            decreases np - i,
        {
            let mut part = self.boss.parts[i];
            if part.cond.alive {
                part.prev_x = part.x;
                part.prev_y = part.y;
                self.boss.parts[i] = part;
            }
            i = i + 1;
        }

        let ghost bullets0 = self.bullet_manager.bullets@;
        let nb = self.bullet_manager.bullets.len();
        let mut i: usize = 0;
        while i < nb
            invariant
                i <= nb,
                nb == bullets0.len(),
                self.bullet_manager.bullets@.len() == nb,
                self.frame == (Frame {
                    prev_x: old(self).frame.x,
                    prev_y: old(self).frame.y,
                    ..old(self).frame
                }),
                self.player1 == (Player {
                    prev_x: old(self).player1.x,
                    prev_y: old(self).player1.y,
                    ..old(self).player1
                }),
                self.player2 == (Player {
                    prev_x: old(self).player2.x,
                    prev_y: old(self).player2.y,
                    ..old(self).player2
                }),
                self.water_renderer == old(self).water_renderer,
                self.hud_player1 == old(self).hud_player1,
                self.hud_player2 == old(self).hud_player2,
                self.tick == old(self).tick,
                self.map_name_counter == old(self).map_name_counter,
                self.skip_counter == old(self).skip_counter,
                self.stage_id == old(self).stage_id,
                self.intro_mode == old(self).intro_mode,
                self.inventory_player1 == old(self).inventory_player1,
                self.inventory_player2 == old(self).inventory_player2,
                self.boss.boss_type == old(self).boss.boss_type,
                self.boss.hurt_sound@ == old(self).boss.hurt_sound@,
                self.boss.death_sound@ == old(self).boss.death_sound@,
                self.npc_list@ == npcs_snapshot_spec(old(self).npc_list@),
                self.boss.parts@ == npcs_snapshot_spec(old(self).boss.parts@),
                forall|k: int|
                    0 <= k < i ==> #[trigger] self.bullet_manager.bullets@[k] == (
                    if bullets0[k].cond.alive {
                        crate::weapon::Bullet {
                            prev_x: bullets0[k].x,
                            prev_y: bullets0[k].y,
                            ..bullets0[k]
                        }
                    } else {
                        bullets0[k]
                    }),
                forall|k: int| i <= k < nb ==> self.bullet_manager.bullets@[k] == bullets0[k],
            decreases nb - i,
        {
            let mut b = self.bullet_manager.bullets[i];
            if b.cond.alive {
                b.prev_x = b.x;
                b.prev_y = b.y;
                self.bullet_manager.bullets[i] = b;
            }
            i = i + 1;
        }
    }
}

/// The numeric weapon tag resolved from an inventory's active weapon, or
/// zero when none is selected.
pub open spec fn current_weapon_tag(inv: Inventory) -> u8 {
    if inv.current_weapon < inv.weapons@.len() {
        weapon_type_id(inv.weapons@[inv.current_weapon as int].wtype)
    } else {
        0
    }
}

pub open spec fn has_weapon_spec(inv: Inventory, wtype: WeaponType) -> bool {
    exists|i: int| 0 <= i < inv.weapons@.len() && (#[trigger] inv.weapons@[i]).wtype == wtype
}

/// Whether a dying NPC may roll a missile-ammo drop: some player carries
/// a missile weapon.
pub open spec fn can_drop_missile_spec(inv1: Inventory, inv2: Inventory) -> bool {
    ||| has_weapon_spec(inv1, WeaponType::MissileLauncher)
    ||| has_weapon_spec(inv1, WeaponType::SuperMissileLauncher)
    ||| has_weapon_spec(inv2, WeaponType::MissileLauncher)
    ||| has_weapon_spec(inv2, WeaponType::SuperMissileLauncher)
}

/// The damage-to-experience conversion of one player: a positive damage
/// accumulator is drained to zero, the equivalent experience loss
/// (doubled without an arms barrier) is handed to the inventory, and a
/// level-down reported while the player lives shows the level cue.
pub open spec fn damage_xp_spec(p: Player, target: TargetPlayer, level_down: bool) -> (
    Player,
    Seq<Effect>,
) {
    if p.damage > 0 {
        let amount = (p.damage * (if p.equip_arms_barrier {
            1int
        } else {
            2int
        })) as u32;
        let take = Effect::TakeXp { target, amount };
        let evs = if level_down && p.life > 0 {
            seq![
                take,
                Effect::CreateCaret {
                    x: p.x,
                    y: p.y,
                    ctype: CaretType::LevelUp,
                    direction: Direction::Right,
                },
            ]
        } else {
            seq![take]
        };
        (Player { damage: 0, ..p }, evs)
    } else {
        (p, Seq::empty())
    }
}

/// Drains one player's damage accumulator, exactly as `damage_xp_spec`
/// says.
fn apply_damage_xp(
    player: &mut Player,
    target: TargetPlayer,
    level_down: bool,
    effects: &mut Vec<Effect>,
)
    ensures
        ({
            let r = damage_xp_spec(*old(player), target, level_down);
            &&& *final(player) == r.0
            &&& final(effects)@ == old(effects)@ + r.1
        }),
{
    let ghost effects0 = effects@;
    if player.damage > 0 {
        let amount: u32 = player.damage as u32 * (if player.equip_arms_barrier {
            1
        } else {
            2
        });
        effects.push(Effect::TakeXp { target, amount });
        if level_down && player.life > 0 {
            effects.push(Effect::CreateCaret {
                x: player.x,
                y: player.y,
                ctype: CaretType::LevelUp,
                direction: Direction::Right,
            });
        }
        player.damage = 0;
        proof {
            assert(effects@ =~= effects0 + damage_xp_spec(*old(player), target, level_down).1);
        }
    }
}

fn can_drop_missile(inv1: &Inventory, inv2: &Inventory) -> (r: bool)
    ensures
        r == can_drop_missile_spec(*inv1, *inv2),
{
    inv1.has_weapon(WeaponType::MissileLauncher) || inv1.has_weapon(WeaponType::SuperMissileLauncher)
        || inv2.has_weapon(WeaponType::MissileLauncher) || inv2.has_weapon(
        WeaponType::SuperMissileLauncher,
    )
}

/// Every boss part's bullet pass keeps the part count and size bound.
proof fn lemma_boss_parts_fold_wf(
    parts: Seq<Npc>,
    k: int,
    bullets: Seq<crate::weapon::Bullet>,
    p1_alive: bool,
    hurt_sound: Seq<u8>,
    death_sound: Seq<u8>,
    flags: crate::state::ControlFlags,
)
    requires
        k <= parts.len(),
        forall|m: int| 0 <= m < parts.len() ==> (#[trigger] parts[m]).size <= 16,
    ensures
        ({
            let r = boss_parts_fold(parts, k, bullets, p1_alive, hurt_sound, death_sound, flags);
            &&& r.0.len() == parts.len()
            &&& r.1.len() == bullets.len()
            &&& forall|m: int| 0 <= m < parts.len() ==> (#[trigger] r.0[m]).size <= 16
        }),
    decreases k,
{
    if k > 0 {
        lemma_boss_parts_fold_wf(parts, k - 1, bullets, p1_alive, hurt_sound, death_sound, flags);
        let prev = boss_parts_fold(parts, k - 1, bullets, p1_alive, hurt_sound, death_sound, flags);
        if 0 <= k - 1 < parts.len() && prev.0[k - 1].cond.alive {
            crate::collision::lemma_boss_bullets_fold_wf(
                prev.0,
                k - 1,
                prev.1,
                prev.1.len() as int,
                p1_alive,
                hurt_sound,
                death_sound,
                prev.2,
            );
        }
    }
}

/// The NPC pass keeps the list length.
proof fn lemma_npcs_fold_len(
    npcs: Seq<Npc>,
    k: int,
    bullets: Seq<crate::weapon::Bullet>,
    p1_alive: bool,
    can_drop_missile: bool,
    flags: crate::state::ControlFlags,
)
    requires
        k <= npcs.len(),
    ensures
        ({
            let r = npcs_fold(npcs, k, bullets, p1_alive, can_drop_missile, flags);
            &&& r.0.len() == npcs.len()
            &&& r.1.len() == bullets.len()
        }),
    decreases k,
{
    if k > 0 {
        lemma_npcs_fold_len(npcs, k - 1, bullets, p1_alive, can_drop_missile, flags);
        let prev = npcs_fold(npcs, k - 1, bullets, p1_alive, can_drop_missile, flags);
        if prev.0[k - 1].cond.alive && !(prev.0[k - 1].npc_flags.shootable
            && prev.0[k - 1].npc_flags.interactable) {
            lemma_npc_bullets_fold_len(prev.0[k - 1], prev.1, prev.1.len() as int, p1_alive, prev.2);
        }
    }
}

proof fn lemma_npc_bullets_fold_len(
    npc: Npc,
    bullets: Seq<crate::weapon::Bullet>,
    k: int,
    p1_alive: bool,
    flags: crate::state::ControlFlags,
)
    requires
        k <= bullets.len(),
    ensures
        crate::collision::npc_bullets_fold(npc, bullets, k, p1_alive, flags).1.len()
            == bullets.len(),
    decreases k,
{
    if k > 0 {
        lemma_npc_bullets_fold_len(npc, bullets, k - 1, p1_alive, flags);
    }
}

impl GameScene {
    /// Pairs every live bullet against every live NPC and boss part, in
    /// order, applying damage, kill scripts, death transitions, bullet
    /// dissipation and wear, exactly as the collision fold functions say.
    /// NPCs marked for an explosion death are flipped dead after their
    /// own bullet pass and their removal is deferred to the entity-list
    /// manager through `KillNpc` effects.
    pub fn tick_npc_bullet_collissions(&mut self, state: &mut SharedState, effects: &mut Vec<Effect>)
        requires
            boss_wf(old(self).boss),
            forall|k: int|
                0 <= k < old(self).boss.parts@.len() ==> (#[trigger] old(self).boss.parts@[k]).size
                    <= 16,
        ensures
            ({
                let nf = npcs_fold(
                    old(self).npc_list@,
                    old(self).npc_list@.len() as int,
                    old(self).bullet_manager.bullets@,
                    old(self).player1.cond.alive,
                    can_drop_missile_spec(old(self).inventory_player1, old(self).inventory_player2),
                    old(state).control_flags,
                );
                let bf = boss_parts_fold(
                    old(self).boss.parts@,
                    old(self).boss.parts@.len() as int,
                    nf.1,
                    old(self).player1.cond.alive,
                    old(self).boss.hurt_sound@,
                    old(self).boss.death_sound@,
                    nf.2,
                );
                &&& final(self).npc_list@ == nf.0
                &&& final(self).boss.parts@ == bf.0
                &&& final(self).bullet_manager.bullets@ == bf.1
                &&& final(state).control_flags == bf.2
                &&& final(effects)@ == old(effects)@ + nf.3 + bf.3
            }),
            final(self).player1 == old(self).player1,
            final(self).player2 == old(self).player2,
            final(self).frame == old(self).frame,
            final(self).water_renderer == old(self).water_renderer,
            final(self).hud_player1 == old(self).hud_player1,
            final(self).hud_player2 == old(self).hud_player2,
            final(self).tick == old(self).tick,
            final(self).map_name_counter == old(self).map_name_counter,
            final(self).skip_counter == old(self).skip_counter,
            final(self).stage_id == old(self).stage_id,
            final(self).intro_mode == old(self).intro_mode,
            final(self).inventory_player1 == old(self).inventory_player1,
            final(self).inventory_player2 == old(self).inventory_player2,
            final(self).boss.boss_type == old(self).boss.boss_type,
            final(self).boss.hurt_sound@ == old(self).boss.hurt_sound@,
            final(self).boss.death_sound@ == old(self).boss.death_sound@,
            final(state).fade_state == old(state).fade_state,
            final(state).script_mode == old(state).script_mode,
            final(state).script_state == old(state).script_state,
            final(state).cutscene_skip == old(state).cutscene_skip,
    {
        let ghost effects0 = effects@;
        let p1_alive = self.player1.cond.alive;
        let can_drop = can_drop_missile(&self.inventory_player1, &self.inventory_player2);

        resolve_npc_list(
            &mut self.npc_list,
            &mut self.bullet_manager.bullets,
            p1_alive,
            can_drop,
            &mut state.control_flags,
            effects,
        );
        resolve_boss_parts(
            &mut self.boss.parts,
            &mut self.bullet_manager.bullets,
            p1_alive,
            &self.boss.hurt_sound,
            &self.boss.death_sound,
            &mut state.control_flags,
            effects,
        );
        proof {
            let nf = npcs_fold(
                old(self).npc_list@,
                old(self).npc_list@.len() as int,
                old(self).bullet_manager.bullets@,
                old(self).player1.cond.alive,
                can_drop_missile_spec(old(self).inventory_player1, old(self).inventory_player2),
                old(state).control_flags,
            );
            let bf = boss_parts_fold(
                old(self).boss.parts@,
                old(self).boss.parts@.len() as int,
                nf.1,
                old(self).player1.cond.alive,
                old(self).boss.hurt_sound@,
                old(self).boss.death_sound@,
                nf.2,
            );
            assert(effects@ =~= effects0 + nf.3 + bf.3);
        }
    }
}

impl GameScene {
    /// Pipeline steps 1-3: HUD visibility, weapon-tag resolution, the
    /// player-tick marker, and both players' damage-to-experience
    /// conversion.
    #[verifier::rlimit(100)]
    #[verifier::spinoff_prover]
    fn tick_world_prelude(&mut self, inputs: &TickInputs, effects: &mut Vec<Effect>)
        ensures
            ({
                let p1a = Player {
                    current_weapon: current_weapon_tag(old(self).inventory_player1),
                    ..old(self).player1
                };
                let p2a = Player {
                    current_weapon: current_weapon_tag(old(self).inventory_player2),
                    ..old(self).player2
                };
                let d1 = damage_xp_spec(
                    p1a,
                    TargetPlayer::Player1,
                    inputs.p1_xp_result is LevelDown,
                );
                let d2 = damage_xp_spec(
                    p2a,
                    TargetPlayer::Player2,
                    inputs.p2_xp_result is LevelDown,
                );
                &&& final(self).hud_player1 == (Hud {
                    visible: old(self).player1.cond.alive,
                    has_player2: old(self).player2.cond.alive && !old(self).player2.cond.hidden,
                })
                &&& final(self).hud_player2 == (Hud {
                    visible: old(self).player2.cond.alive,
                    has_player2: old(self).player1.cond.alive && !old(self).player1.cond.hidden,
                })
                &&& final(self).player1 == d1.0
                &&& final(self).player2 == d2.0
                &&& final(effects)@ == old(effects)@ + seq![Effect::ExtTickPlayers] + d1.1 + d2.1
            }),
            final(self).npc_list@ == old(self).npc_list@,
            final(self).boss.parts@ == old(self).boss.parts@,
            final(self).boss.boss_type == old(self).boss.boss_type,
            final(self).boss.hurt_sound@ == old(self).boss.hurt_sound@,
            final(self).boss.death_sound@ == old(self).boss.death_sound@,
            final(self).bullet_manager.bullets@ == old(self).bullet_manager.bullets@,
            final(self).frame == old(self).frame,
            final(self).water_renderer == old(self).water_renderer,
            final(self).tick == old(self).tick,
            final(self).map_name_counter == old(self).map_name_counter,
            final(self).skip_counter == old(self).skip_counter,
            final(self).stage_id == old(self).stage_id,
            final(self).intro_mode == old(self).intro_mode,
            final(self).inventory_player1 == old(self).inventory_player1,
            final(self).inventory_player2 == old(self).inventory_player2,
    {
        let ghost effects0 = effects@;
        let ghost p1a = Player {
            current_weapon: current_weapon_tag(self.inventory_player1),
            ..self.player1
        };
        let ghost d1 = damage_xp_spec(p1a, TargetPlayer::Player1, inputs.p1_xp_result is LevelDown);

        self.hud_player1.visible = self.player1.cond.alive;
        self.hud_player2.visible = self.player2.cond.alive;
        self.hud_player1.has_player2 = self.player2.cond.alive && !self.player2.cond.hidden;
        self.hud_player2.has_player2 = self.player1.cond.alive && !self.player1.cond.hidden;

        self.player1.current_weapon = match self.inventory_player1.get_current_weapon() {
            Some(w) => w.wtype.id(),
            None => 0,
        };
        self.player2.current_weapon = match self.inventory_player2.get_current_weapon() {
            Some(w) => w.wtype.id(),
            None => 0,
        };

        effects.push(Effect::ExtTickPlayers);

        apply_damage_xp(
            &mut self.player1,
            TargetPlayer::Player1,
            inputs.p1_xp_result == TakeExperienceResult::LevelDown,
            effects,
        );
        proof {
            assert(effects@ =~= effects0 + seq![Effect::ExtTickPlayers] + d1.1);
        }
        apply_damage_xp(
            &mut self.player2,
            TargetPlayer::Player2,
            inputs.p2_xp_result == TakeExperienceResult::LevelDown,
            effects,
        );
    }

    /// Pipeline steps 4-7: the collaborator markers for entity ticks and
    /// map/entity collisions, then bullet collision resolution.
    fn tick_world_collisions(&mut self, state: &mut SharedState, effects: &mut Vec<Effect>)
        requires
            boss_wf(old(self).boss),
            forall|k: int|
                0 <= k < old(self).boss.parts@.len() ==> (#[trigger] old(self).boss.parts@[k]).size
                    <= 16,
        ensures
            ({
                let nf = npcs_fold(
                    old(self).npc_list@,
                    old(self).npc_list@.len() as int,
                    old(self).bullet_manager.bullets@,
                    old(self).player1.cond.alive,
                    can_drop_missile_spec(old(self).inventory_player1, old(self).inventory_player2),
                    old(state).control_flags,
                );
                let bf = boss_parts_fold(
                    old(self).boss.parts@,
                    old(self).boss.parts@.len() as int,
                    nf.1,
                    old(self).player1.cond.alive,
                    old(self).boss.hurt_sound@,
                    old(self).boss.death_sound@,
                    nf.2,
                );
                &&& final(self).npc_list@ == nf.0
                &&& final(self).boss.parts@ == bf.0
                &&& final(self).bullet_manager.bullets@ == bf.1
                &&& final(state).control_flags == bf.2
                &&& final(effects)@ == old(effects)@ + seq![
                    Effect::ExtTickNpcsAndBoss,
                    Effect::ExtTickMapCollisions,
                    Effect::ExtTickPlayerNpcCollisions,
                ] + nf.3 + bf.3
            }),
            final(self).player1 == old(self).player1,
            final(self).player2 == old(self).player2,
            final(self).frame == old(self).frame,
            final(self).water_renderer == old(self).water_renderer,
            final(self).hud_player1 == old(self).hud_player1,
            final(self).hud_player2 == old(self).hud_player2,
            final(self).tick == old(self).tick,
            final(self).map_name_counter == old(self).map_name_counter,
            final(self).skip_counter == old(self).skip_counter,
            final(self).stage_id == old(self).stage_id,
            final(self).intro_mode == old(self).intro_mode,
            final(self).inventory_player1 == old(self).inventory_player1,
            final(self).inventory_player2 == old(self).inventory_player2,
            final(self).boss.boss_type == old(self).boss.boss_type,
            final(self).boss.hurt_sound@ == old(self).boss.hurt_sound@,
            final(self).boss.death_sound@ == old(self).boss.death_sound@,
            final(state).fade_state == old(state).fade_state,
            final(state).script_mode == old(state).script_mode,
            final(state).script_state == old(state).script_state,
            final(state).cutscene_skip == old(state).cutscene_skip,
    {
        let ghost effects0 = effects@;
        effects.push(Effect::ExtTickNpcsAndBoss);
        effects.push(Effect::ExtTickMapCollisions);
        effects.push(Effect::ExtTickPlayerNpcCollisions);
        proof {
            assert(effects@ =~= effects0 + seq![
                Effect::ExtTickNpcsAndBoss,
                Effect::ExtTickMapCollisions,
                Effect::ExtTickPlayerNpcCollisions,
            ]);
        }
        self.tick_npc_bullet_collissions(state, effects);
        proof {
            let nf = npcs_fold(
                old(self).npc_list@,
                old(self).npc_list@.len() as int,
                old(self).bullet_manager.bullets@,
                old(self).player1.cond.alive,
                can_drop_missile_spec(old(self).inventory_player1, old(self).inventory_player2),
                old(state).control_flags,
            );
            let bf = boss_parts_fold(
                old(self).boss.parts@,
                old(self).boss.parts@.len() as int,
                nf.1,
                old(self).player1.cond.alive,
                old(self).boss.hurt_sound@,
                old(self).boss.death_sound@,
                nf.2,
            );
            assert(effects@ =~= effects0 + seq![
                Effect::ExtTickNpcsAndBoss,
                Effect::ExtTickMapCollisions,
                Effect::ExtTickPlayerNpcCollisions,
            ] + nf.3 + bf.3);
        }
    }
}

impl GameScene {
    /// One world tick, in fixed pipeline order: HUD flags and weapon
    /// tags, the players' damage-to-experience conversion, bullet
    /// collision resolution, the camera target, the control-phase
    /// decisions, the water surfaces, and the map-name countdown. The
    /// whole transition and its effect sequence are `world_tick_model`.
    /// The `Ext*` entries of the returned effects mark where the
    /// embedding runs each collaborator tick; reordering them changes
    /// gameplay-visible outcomes.
    #[verifier::rlimit(100)]
    #[verifier::spinoff_prover]
    pub fn tick_world(&mut self, state: &mut SharedState, inputs: &TickInputs) -> (effects: Vec<
        Effect,
    >)
        requires
            scene_wf(*old(self)),
        ensures
            ({
                let r = world_tick_model(scene_world_model(*old(self), *old(state)), *inputs);
                &&& scene_world_model(*final(self), *final(state)) == r.0
                &&& effects@ == r.1
            }),
            final(self).water_renderer.depth_regions@ == old(self).water_renderer.depth_regions@,
            final(self).water_renderer.surf_regions@ == old(self).water_renderer.surf_regions@,
            final(self).tick == old(self).tick,
            final(self).skip_counter == old(self).skip_counter,
            final(self).stage_id == old(self).stage_id,
            final(self).intro_mode == old(self).intro_mode,
            final(self).inventory_player1 == old(self).inventory_player1,
            final(self).inventory_player2 == old(self).inventory_player2,
            final(self).boss.boss_type == old(self).boss.boss_type,
            final(self).boss.hurt_sound@ == old(self).boss.hurt_sound@,
            final(self).boss.death_sound@ == old(self).boss.death_sound@,
            final(state).fade_state == old(state).fade_state,
            final(state).script_state == old(state).script_state,
            final(state).cutscene_skip == old(state).cutscene_skip,
            scene_wf(*final(self)),
    {
        let ghost p1a = Player {
            current_weapon: current_weapon_tag(self.inventory_player1),
            ..self.player1
        };
        let ghost p2a = Player {
            current_weapon: current_weapon_tag(self.inventory_player2),
            ..self.player2
        };
        let ghost d1 = damage_xp_spec(p1a, TargetPlayer::Player1, inputs.p1_xp_result is LevelDown);
        let ghost d2 = damage_xp_spec(p2a, TargetPlayer::Player2, inputs.p2_xp_result is LevelDown);
        let ghost nf = npcs_fold(
            self.npc_list@,
            self.npc_list@.len() as int,
            self.bullet_manager.bullets@,
            self.player1.cond.alive,
            can_drop_missile_spec(self.inventory_player1, self.inventory_player2),
            state.control_flags,
        );
        let ghost bf = boss_parts_fold(
            self.boss.parts@,
            self.boss.parts@.len() as int,
            nf.1,
            self.player1.cond.alive,
            self.boss.hurt_sound@,
            self.boss.death_sound@,
            nf.2,
        );
        let ghost control0 = state.control_flags.control_enabled;
        proof {
            lemma_npcs_fold_control(
                self.npc_list@,
                self.npc_list@.len() as int,
                self.bullet_manager.bullets@,
                self.player1.cond.alive,
                can_drop_missile_spec(self.inventory_player1, self.inventory_player2),
                state.control_flags,
            );
            lemma_boss_parts_fold_control(
                self.boss.parts@,
                self.boss.parts@.len() as int,
                nf.1,
                self.player1.cond.alive,
                self.boss.hurt_sound@,
                self.boss.death_sound@,
                nf.2,
            );
            lemma_npcs_fold_len(
                self.npc_list@,
                self.npc_list@.len() as int,
                self.bullet_manager.bullets@,
                self.player1.cond.alive,
                can_drop_missile_spec(self.inventory_player1, self.inventory_player2),
                state.control_flags,
            );
            lemma_boss_parts_fold_wf(
                self.boss.parts@,
                self.boss.parts@.len() as int,
                nf.1,
                self.player1.cond.alive,
                self.boss.hurt_sound@,
                self.boss.death_sound@,
                nf.2,
            );
        }
        let mut effects: Vec<Effect> = Vec::new();

        self.tick_world_prelude(inputs, &mut effects);
        self.tick_world_collisions(state, &mut effects);
        let ghost e_coll = effects@;

        effects.push(Effect::ExtTickBullets);
        effects.push(Effect::ExtTickCarets);

        self.frame.update_camera_target(
            &self.player1,
            &self.player2,
            &self.npc_list,
            &self.boss.parts,
        );
        effects.push(Effect::ExtEaseCamera);

        if state.control_flags.control_enabled {
            effects.push(Effect::ExtTickWeaponsAndHud);
            if inputs.p1_trigger_inventory {
                state.script_mode = ScriptMode::Inventory;
                self.player1.cond.interacted = false;
            }
        }

        self.water_renderer.tick(&self.player1);

        if self.map_name_counter > 0 {
            self.map_name_counter = self.map_name_counter - 1;
        }

        proof {
            assert(e_coll =~= seq![Effect::ExtTickPlayers] + d1.1 + d2.1 + seq![
                Effect::ExtTickNpcsAndBoss,
                Effect::ExtTickMapCollisions,
                Effect::ExtTickPlayerNpcCollisions,
            ] + nf.3 + bf.3);
            assert(effects@ =~= e_coll + seq![
                Effect::ExtTickBullets,
                Effect::ExtTickCarets,
                Effect::ExtEaseCamera,
            ] + (if control0 {
                seq![Effect::ExtTickWeaponsAndHud]
            } else {
                Seq::<Effect>::empty()
            }));

            let m0 = scene_world_model(*old(self), *old(state));
            let r = world_tick_model(m0, *inputs);
            let cur = scene_world_model(*self, *state);
            assert(effects@ == r.1);
            assert(cur.npcs == r.0.npcs);
            assert(cur.boss_parts == r.0.boss_parts);
            assert(cur.bullets == r.0.bullets);
            assert(r.0.waters.len() == cur.waters.len());
            assert forall|k: int| 0 <= k < cur.waters.len() implies #[trigger] cur.waters[k]
                == r.0.waters[k] by {
                assert(self.water_renderer.water_surfaces@[k].columns@ == water_tick_spec(
                    impulse_cols(
                        old(self).water_renderer.water_surfaces@[k].columns@,
                        old(self).water_renderer.water_surfaces@[k].x,
                        old(self).water_renderer.water_surfaces@[k].y,
                        old(self).water_renderer.water_surfaces@[k].end_x,
                        self.player1,
                    ),
                ));
            }
            assert(cur.waters =~= r.0.waters);
            assert(cur == r.0);
        }

        effects
    }
}

/// The cutscene-skip gate is active while the script interpreter is busy,
/// the player has no control, and the skip has not fired yet.
pub open spec fn skip_active(
    script_state: TextScriptExecutionState,
    control_enabled: bool,
    cutscene_skip: bool,
) -> bool {
    &&& (script_state is Running || script_state is WaitTicks || script_state is WaitInput
        || script_state is Msg)
    &&& !control_enabled
    &&& !cutscene_skip
}

/// One step of the cutscene-skip counter: held input charges it toward
/// `CUTSCENE_SKIP_WAIT` (setting the skip flag on arrival), released
/// input drains it, and outside a skippable cutscene it resets.
pub open spec fn skip_step(
    script_state: TextScriptExecutionState,
    control_enabled: bool,
    cutscene_skip: bool,
    counter: u16,
    held: bool,
) -> (u16, bool) {
    if skip_active(script_state, control_enabled, cutscene_skip) {
        if held {
            let c1 = if counter < u16::MAX {
                (counter + 1) as u16
            } else {
                counter
            };
            (c1, cutscene_skip || c1 >= CUTSCENE_SKIP_WAIT)
        } else if counter > 0 {
            ((counter - 1) as u16, cutscene_skip)
        } else {
            (counter, cutscene_skip)
        }
    } else {
        (0u16, cutscene_skip)
    }
}

/// The fade machine iterated `k` ticks.
pub open spec fn fade_steps(f: FadeState, k: nat) -> FadeState
    decreases k,
{
    if k == 0 {
        f
    } else {
        fade_step(fade_steps(f, (k - 1) as nat))
    }
}

impl GameScene {
    /// The per-tick seed the scene's random generator is reset with: the
    /// primary player's health and position folded with the stage id,
    /// wrapped into 32 bits and rotated.
    pub open spec fn rng_seed_spec(max_life: u16, x: i32, y: i32, stage_id: usize) -> i32 {
        let sum = ((max_life as u32) as int + ((x as u32) as int) + ((y as u32) as int) + (
        (stage_id as u32) as int)) % 0x1_0000_0000;
        let u = sum as u32;
        ((u >> 7u32) | (u << 25u32)) as i32
    }

    pub fn rng_seed(&self) -> (r: i32)
        ensures
            r == GameScene::rng_seed_spec(
                self.player1.max_life,
                self.player1.x,
                self.player1.y,
                self.stage_id,
            ),
    {
        let a: u32 = self.player1.max_life as u32;
        let b: u32 = #[verifier::truncate] (self.player1.x as u32);
        let c: u32 = #[verifier::truncate] (self.player1.y as u32);
        let d: u32 = #[verifier::truncate] (self.stage_id as u32);
        let sum: u64 = a as u64 + b as u64 + c as u64 + d as u64;
        let u: u32 = (sum % 0x1_0000_0000) as u32;
        ((u >> 7u32) | (u << 25u32)) as i32
    }

    /// The camera-target initialization of scene startup: both players
    /// aim the camera at their own position and the frame starts on the
    /// primary player.
    pub fn init_camera_targets(&mut self)
        ensures
            final(self).player1 == (Player {
                target_x: old(self).player1.x,
                target_y: old(self).player1.y,
                camera_target_x: 0,
                camera_target_y: 0,
                ..old(self).player1
            }),
            final(self).player2 == (Player {
                target_x: old(self).player2.x,
                target_y: old(self).player2.y,
                camera_target_x: 0,
                camera_target_y: 0,
                ..old(self).player2
            }),
            final(self).frame == (Frame {
                target_x: old(self).player1.x,
                target_y: old(self).player1.y,
                ..old(self).frame
            }),
            final(self).npc_list@ == old(self).npc_list@,
            final(self).boss.parts@ == old(self).boss.parts@,
            final(self).bullet_manager.bullets@ == old(self).bullet_manager.bullets@,
            final(self).water_renderer == old(self).water_renderer,
    {
        self.player1.target_x = self.player1.x;
        self.player1.target_y = self.player1.y;
        self.player1.camera_target_x = 0;
        self.player1.camera_target_y = 0;
        self.player2.target_x = self.player2.x;
        self.player2.target_y = self.player2.y;
        self.player2.camera_target_x = 0;
        self.player2.camera_target_y = 0;
        self.frame.target_x = self.player1.x;
        self.frame.target_y = self.player1.y;
    }
}

impl GameScene {
    /// One scene tick: the cutscene-skip gate, the intro-mode exit, and
    /// then one round of the inner loop — or four, when a cutscene is
    /// being skipped. Each round dispatches on the script mode (the world
    /// pipeline of `world_tick_model` when world ticking is enabled),
    /// then advances the fade machine and marks the flash and
    /// script-interpreter ticks; the tick counter climbs (wrapping) while
    /// the player is in control. The script interpreter itself runs
    /// outside the core, so its execution state is modeled as fixed
    /// across the rounds of one call.
    #[verifier::rlimit(100)]
    #[verifier::spinoff_prover]
    pub fn tick(&mut self, state: &mut SharedState, inputs: &TickInputs) -> (effects: Vec<Effect>)
        requires
            scene_wf(*old(self)),
        ensures
            ({
                let sk = skip_step(
                    old(state).script_state,
                    old(state).control_flags.control_enabled,
                    old(state).cutscene_skip,
                    old(self).skip_counter,
                    inputs.p1_inventory_held,
                );
                let rounds = if old(state).script_mode is World && sk.1 {
                    4nat
                } else {
                    1nat
                };
                let rr = scene_rounds_model(
                    scene_world_model(*old(self), *old(state)),
                    *inputs,
                    rounds,
                );
                let intro_exit = old(self).intro_mode && (old(state).script_state
                    == TextScriptExecutionState::WaitTicks(9999) || inputs.p1_trigger_menu_ok);
                &&& final(self).skip_counter == sk.0
                &&& final(state).cutscene_skip == sk.1
                &&& final(state).fade_state == fade_steps(old(state).fade_state, rounds)
                &&& final(self).tick == (if old(state).control_flags.control_enabled {
                    ((old(self).tick + rounds) % 0x1_0000_0000) as u32
                } else {
                    old(self).tick
                })
                &&& scene_world_model(*final(self), *final(state)) == rr.0
                &&& effects@ == (if intro_exit {
                    seq![Effect::NextSceneTitle]
                } else {
                    Seq::<Effect>::empty()
                }) + rr.1
            }),
            final(state).script_state == old(state).script_state,
            final(self).intro_mode == old(self).intro_mode,
            final(self).stage_id == old(self).stage_id,
            final(self).inventory_player1 == old(self).inventory_player1,
            final(self).inventory_player2 == old(self).inventory_player2,
            scene_wf(*final(self)),
    {
        let ghost self0 = *self;
        let ghost state0 = *state;
        let ghost m0 = scene_world_model(*self, *state);
        let mut effects: Vec<Effect> = Vec::new();

        if self.intro_mode {
            if state.script_state == TextScriptExecutionState::WaitTicks(9999)
                || inputs.p1_trigger_menu_ok {
                effects.push(Effect::NextSceneTitle);
            }
        }
        let ghost intro_cond = self0.intro_mode && (state0.script_state
            == TextScriptExecutionState::WaitTicks(9999) || inputs.p1_trigger_menu_ok);
        let ghost e_prefix = effects@;
        proof {
            assert(e_prefix =~= (if intro_cond {
                seq![Effect::NextSceneTitle]
            } else {
                Seq::<Effect>::empty()
            }));
        }

        let skip_possible = match state.script_state {
            TextScriptExecutionState::Running => true,
            TextScriptExecutionState::WaitTicks(_) => true,
            TextScriptExecutionState::WaitInput => true,
            TextScriptExecutionState::Msg => true,
            _ => false,
        };
        if skip_possible && !state.control_flags.control_enabled && !state.cutscene_skip {
            if inputs.p1_inventory_held {
                if self.skip_counter < u16::MAX {
                    self.skip_counter = self.skip_counter + 1;
                }
                if self.skip_counter >= CUTSCENE_SKIP_WAIT {
                    state.cutscene_skip = true;
                }
            } else if self.skip_counter > 0 {
                self.skip_counter = self.skip_counter - 1;
            }
        } else {
            self.skip_counter = 0;
        }

        let ghost sk = skip_step(
            state0.script_state,
            state0.control_flags.control_enabled,
            state0.cutscene_skip,
            self0.skip_counter,
            inputs.p1_inventory_held,
        );

        let rounds: u32 = if state.script_mode == ScriptMode::World && state.cutscene_skip {
            4
        } else {
            1
        };
        proof {
            assert(effects@ =~= e_prefix + scene_rounds_model(m0, *inputs, 0nat).1);
        }

        let mut k: u32 = 0;
        while k < rounds
            invariant
                k <= rounds,
                rounds == (if state0.script_mode is World && sk.1 {
                    4u32
                } else {
                    1u32
                }),
                self.skip_counter == sk.0,
                state.cutscene_skip == sk.1,
                state.script_state == state0.script_state,
                state.fade_state == fade_steps(state0.fade_state, k as nat),
                state.control_flags.control_enabled == state0.control_flags.control_enabled,
                self.tick == (if state0.control_flags.control_enabled {
                    ((self0.tick + k) % 0x1_0000_0000) as u32
                } else {
                    self0.tick
                }),
                self.intro_mode == self0.intro_mode,
                self.stage_id == self0.stage_id,
                self.inventory_player1 == self0.inventory_player1,
                self.inventory_player2 == self0.inventory_player2,
                scene_wf(*self),
                scene_world_model(*self, *state) == scene_rounds_model(m0, *inputs, k as nat).0,
                effects@ == e_prefix + scene_rounds_model(m0, *inputs, k as nat).1,
            decreases rounds - k,
        {
            let ghost prev = scene_rounds_model(m0, *inputs, k as nat);
            let world_now = state.script_mode == ScriptMode::World
                && state.control_flags.tick_world;
            if world_now {
                let ghost pre = *self;
                let ghost spre = *state;
                let mut evs = self.tick_world(state, inputs);
                proof {
                    let nf = npcs_fold(
                        pre.npc_list@,
                        pre.npc_list@.len() as int,
                        pre.bullet_manager.bullets@,
                        pre.player1.cond.alive,
                        can_drop_missile_spec(pre.inventory_player1, pre.inventory_player2),
                        spre.control_flags,
                    );
                    lemma_npcs_fold_control(
                        pre.npc_list@,
                        pre.npc_list@.len() as int,
                        pre.bullet_manager.bullets@,
                        pre.player1.cond.alive,
                        can_drop_missile_spec(pre.inventory_player1, pre.inventory_player2),
                        spre.control_flags,
                    );
                    lemma_boss_parts_fold_control(
                        pre.boss.parts@,
                        pre.boss.parts@.len() as int,
                        nf.1,
                        pre.player1.cond.alive,
                        pre.boss.hurt_sound@,
                        pre.boss.death_sound@,
                        nf.2,
                    );
                    assert(scene_world_model(pre, spre) == prev.0);
                }
                effects.append(&mut evs);
                proof {
                    let step = world_tick_model(prev.0, *inputs);
                    assert(scene_world_model(*self, *state) == step.0);
                    assert(effects@ =~= e_prefix + prev.1 + step.1);
                }
            } else {
                match state.script_mode {
                    ScriptMode::StageSelect => {
                        effects.push(Effect::ExtTickStageSelect);
                    },
                    ScriptMode::Inventory => {
                        effects.push(Effect::ExtTickInventoryUI);
                    },
                    ScriptMode::World => {},
                }
            }

            state.fade_state = fade_tick(state.fade_state);
            effects.push(Effect::ExtTickFlash);
            effects.push(Effect::ExtRunTextScript);

            if state.control_flags.control_enabled {
                self.tick = self.tick.wrapping_add(1);
            }
            proof {
                let next = scene_rounds_model(m0, *inputs, (k + 1) as nat);
                assert(next.0 == scene_round_model(prev.0, *inputs).0);
                assert(next.1 == prev.1 + scene_round_model(prev.0, *inputs).1);
                assert(scene_world_model(*self, *state) == next.0);
                assert(effects@ =~= e_prefix + next.1);
            }
            k = k + 1;
        }

        effects
    }
}

} // verus!
