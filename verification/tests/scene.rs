use simcore::common::{FadeDirection, FadeState, fade_tick};
use simcore::effects::Effect;
use simcore::inventory::{Inventory, TakeExperienceResult};
use simcore::scene::{GameScene, TickInputs};
use simcore::state::{ControlFlags, ScriptMode, SharedState, TextScriptExecutionState};
use simcore::weapon::{Weapon, WeaponType};

fn idle_inputs() -> TickInputs {
    TickInputs {
        p1_xp_result: TakeExperienceResult::Unchanged,
        p2_xp_result: TakeExperienceResult::Unchanged,
        p1_trigger_inventory: false,
        p1_inventory_held: false,
        p1_trigger_menu_ok: false,
    }
}

fn world_state() -> SharedState {
    SharedState {
        control_flags: ControlFlags { tick_world: true, interactions_disabled: false, control_enabled: true },
        fade_state: FadeState::Visible,
        script_mode: ScriptMode::World,
        script_state: TextScriptExecutionState::Ended,
        cutscene_skip: false,
    }
}

#[test]
fn display_map_name_sets_counter() {
    let mut scene = GameScene::new(3);
    scene.display_map_name(120);
    assert_eq!(scene.map_name_counter, 120);
}

#[test]
fn add_and_drop_player2() {
    let mut scene = GameScene::new(0);
    scene.player1.x = 1000;
    scene.player1.y = 2000;
    scene.player1.vel_x = 3;
    scene.player1.vel_y = 4;
    scene.add_player2();
    assert!(scene.player2.cond.alive);
    assert_eq!(scene.player2.x, 1000);
    assert_eq!(scene.player2.y, 2000);
    assert_eq!(scene.player2.vel_x, 3);
    assert_eq!(scene.player2.vel_y, 4);
    scene.drop_player2();
    assert!(!scene.player2.cond.alive);
}

#[test]
fn tick_world_emits_pipeline_markers_in_order() {
    let mut scene = GameScene::new(0);
    let mut state = world_state();
    let effects = scene.tick_world(&mut state, &idle_inputs());
    assert_eq!(
        effects,
        vec![
            Effect::ExtTickPlayers,
            Effect::ExtTickNpcsAndBoss,
            Effect::ExtTickMapCollisions,
            Effect::ExtTickPlayerNpcCollisions,
            Effect::ExtTickBullets,
            Effect::ExtTickCarets,
            Effect::ExtEaseCamera,
            Effect::ExtTickWeaponsAndHud,
        ]
    );
}

#[test]
fn damage_converts_to_experience_loss() {
    let mut scene = GameScene::new(0);
    scene.player1.cond.alive = true;
    scene.player1.damage = 6;
    scene.player1.life = 10;
    let mut state = world_state();
    let effects = scene.tick_world(&mut state, &idle_inputs());
    // Without an arms barrier the loss doubles.
    assert!(effects.contains(&Effect::TakeXp {
        target: simcore::player::TargetPlayer::Player1,
        amount: 12
    }));
    assert_eq!(scene.player1.damage, 0);

    // With the barrier the loss is one-to-one, and a reported level-down
    // on a living player shows the level cue.
    scene.player2.cond.alive = true;
    scene.player2.damage = 6;
    scene.player2.life = 10;
    scene.player2.equip_arms_barrier = true;
    scene.player2.x = 77;
    scene.player2.y = 88;
    let mut inputs = idle_inputs();
    inputs.p2_xp_result = TakeExperienceResult::LevelDown;
    let effects = scene.tick_world(&mut state, &inputs);
    assert!(effects.contains(&Effect::TakeXp {
        target: simcore::player::TargetPlayer::Player2,
        amount: 6
    }));
    assert!(effects.contains(&Effect::CreateCaret {
        x: 77,
        y: 88,
        ctype: simcore::effects::CaretType::LevelUp,
        direction: simcore::common::Direction::Right,
    }));
}

#[test]
fn hud_follows_player_liveness() {
    let mut scene = GameScene::new(0);
    scene.player1.cond.alive = true;
    scene.player2.cond.alive = true;
    let mut state = world_state();
    scene.tick_world(&mut state, &idle_inputs());
    assert!(scene.hud_player1.visible);
    assert!(scene.hud_player2.visible);
    assert!(scene.hud_player1.has_player2);
    assert!(scene.hud_player2.has_player2);
}

#[test]
fn current_weapon_tag_resolves_from_inventory() {
    let mut scene = GameScene::new(0);
    scene.inventory_player1 = Inventory {
        weapons: vec![Weapon::new(WeaponType::Fireball, 1, 0, 0, 0)],
        current_weapon: 0,
    };
    let mut state = world_state();
    scene.tick_world(&mut state, &idle_inputs());
    assert_eq!(scene.player1.current_weapon, 3);
    assert_eq!(scene.player2.current_weapon, 0);
}

#[test]
fn inventory_trigger_opens_menu_when_in_control() {
    let mut scene = GameScene::new(0);
    let mut state = world_state();
    let mut inputs = idle_inputs();
    inputs.p1_trigger_inventory = true;
    scene.tick_world(&mut state, &inputs);
    assert_eq!(state.script_mode, ScriptMode::Inventory);
    assert!(!scene.player1.cond.interacted);

    // Without control the trigger is ignored.
    let mut state = world_state();
    state.control_flags.control_enabled = false;
    let mut scene = GameScene::new(0);
    scene.tick_world(&mut state, &inputs);
    assert_eq!(state.script_mode, ScriptMode::World);
}

#[test]
fn map_name_counter_ticks_down_to_zero() {
    let mut scene = GameScene::new(0);
    scene.display_map_name(2);
    let mut state = world_state();
    scene.tick_world(&mut state, &idle_inputs());
    assert_eq!(scene.map_name_counter, 1);
    scene.tick_world(&mut state, &idle_inputs());
    assert_eq!(scene.map_name_counter, 0);
    scene.tick_world(&mut state, &idle_inputs());
    assert_eq!(scene.map_name_counter, 0);
}

#[test]
fn tick_counter_climbs_only_in_control() {
    let mut scene = GameScene::new(0);
    let mut state = world_state();
    let inputs = idle_inputs();
    scene.tick(&mut state, &inputs);
    assert_eq!(scene.tick, 1);
    state.control_flags.control_enabled = false;
    scene.tick(&mut state, &inputs);
    assert_eq!(scene.tick, 1);
}

#[test]
fn cutscene_skip_charges_and_fires() {
    let mut scene = GameScene::new(0);
    let mut state = world_state();
    state.control_flags.control_enabled = false;
    state.control_flags.tick_world = false;
    state.script_state = TextScriptExecutionState::Msg;
    let mut inputs = idle_inputs();
    inputs.p1_inventory_held = true;
    for _ in 0..49 {
        scene.tick(&mut state, &inputs);
        assert!(!state.cutscene_skip);
    }
    scene.tick(&mut state, &inputs);
    assert!(state.cutscene_skip);
    assert_eq!(scene.skip_counter, 50);

    // Once the skip fired, the counter resets on the next tick.
    scene.tick(&mut state, &inputs);
    assert_eq!(scene.skip_counter, 0);
}

#[test]
fn releasing_skip_control_drains_counter() {
    let mut scene = GameScene::new(0);
    let mut state = world_state();
    state.control_flags.control_enabled = false;
    state.control_flags.tick_world = false;
    state.script_state = TextScriptExecutionState::Running;
    let mut inputs = idle_inputs();
    inputs.p1_inventory_held = true;
    scene.tick(&mut state, &inputs);
    scene.tick(&mut state, &inputs);
    assert_eq!(scene.skip_counter, 2);
    inputs.p1_inventory_held = false;
    scene.tick(&mut state, &inputs);
    assert_eq!(scene.skip_counter, 1);
}

#[test]
fn cutscene_skip_runs_four_rounds() {
    let mut scene = GameScene::new(0);
    let mut state = world_state();
    state.control_flags.control_enabled = true;
    state.cutscene_skip = true;
    state.script_state = TextScriptExecutionState::Ended;
    scene.tick(&mut state, &idle_inputs());
    assert_eq!(scene.tick, 4);
}

#[test]
fn intro_mode_leaves_for_title() {
    let mut scene = GameScene::new(0);
    scene.intro_mode = true;
    let mut state = world_state();
    state.script_state = TextScriptExecutionState::WaitTicks(9999);
    let effects = scene.tick(&mut state, &idle_inputs());
    assert_eq!(effects[0], Effect::NextSceneTitle);
}

#[test]
fn fade_machine_runs_out_and_in() {
    let mut f = FadeState::FadeOut(13, FadeDirection::Left);
    f = fade_tick(f);
    assert_eq!(f, FadeState::FadeOut(14, FadeDirection::Left));
    f = fade_tick(f);
    assert_eq!(f, FadeState::FadeOut(15, FadeDirection::Left));
    f = fade_tick(f);
    assert_eq!(f, FadeState::Hidden);
    assert_eq!(fade_tick(FadeState::Hidden), FadeState::Hidden);

    let mut f = FadeState::FadeIn(-14, FadeDirection::Center);
    f = fade_tick(f);
    assert_eq!(f, FadeState::FadeIn(-15, FadeDirection::Center));
    f = fade_tick(f);
    assert_eq!(f, FadeState::Visible);
}

#[test]
fn fade_advances_inside_scene_tick() {
    let mut scene = GameScene::new(0);
    let mut state = world_state();
    state.fade_state = FadeState::FadeOut(15, FadeDirection::Up);
    scene.tick(&mut state, &idle_inputs());
    assert_eq!(state.fade_state, FadeState::Hidden);
}

#[test]
fn snapshot_captures_previous_positions() {
    let mut scene = GameScene::new(0);
    scene.player1.x = 10;
    scene.player1.y = 20;
    scene.frame.x = 30;
    scene.frame.y = 40;
    scene.snapshot_prev_positions();
    assert_eq!(scene.player1.prev_x, 10);
    assert_eq!(scene.player1.prev_y, 20);
    assert_eq!(scene.frame.prev_x, 30);
    assert_eq!(scene.frame.prev_y, 40);
}

#[test]
fn rng_seed_folds_player_state() {
    let mut scene = GameScene::new(0);
    scene.player1.max_life = 3;
    assert_eq!(scene.rng_seed(), 100_663_296);

    // The seed mixes the stage id in before the rotation.
    let mut other = GameScene::new(1);
    other.player1.max_life = 3;
    assert_ne!(other.rng_seed(), scene.rng_seed());
}

#[test]
fn init_camera_targets_points_at_players() {
    let mut scene = GameScene::new(0);
    scene.player1.x = 123;
    scene.player1.y = 456;
    scene.init_camera_targets();
    assert_eq!(scene.player1.target_x, 123);
    assert_eq!(scene.player1.target_y, 456);
    assert_eq!(scene.frame.target_x, 123);
    assert_eq!(scene.frame.target_y, 456);
    assert_eq!(scene.player1.camera_target_x, 0);
}

#[test]
fn inventory_lookup() {
    let inv = Inventory {
        weapons: vec![
            Weapon::new(WeaponType::PoloStar, 1, 0, 0, 0),
            Weapon::new(WeaponType::MissileLauncher, 1, 0, 10, 10),
        ],
        current_weapon: 1,
    };
    assert!(inv.has_weapon(WeaponType::MissileLauncher));
    assert!(!inv.has_weapon(WeaponType::Spur));
    assert_eq!(inv.get_current_weapon().unwrap().wtype, WeaponType::MissileLauncher);

    let empty = Inventory::new();
    assert!(empty.get_current_weapon().is_none());
}

#[test]
fn tick_runs_the_world_pipeline_with_round_markers() {
    let mut scene = GameScene::new(0);
    let mut state = world_state();
    let effects = scene.tick(&mut state, &idle_inputs());
    assert_eq!(
        effects,
        vec![
            Effect::ExtTickPlayers,
            Effect::ExtTickNpcsAndBoss,
            Effect::ExtTickMapCollisions,
            Effect::ExtTickPlayerNpcCollisions,
            Effect::ExtTickBullets,
            Effect::ExtTickCarets,
            Effect::ExtEaseCamera,
            Effect::ExtTickWeaponsAndHud,
            Effect::ExtTickFlash,
            Effect::ExtRunTextScript,
        ]
    );
}

#[test]
fn tick_in_stage_select_marks_only_the_ui_round() {
    let mut scene = GameScene::new(0);
    let mut state = world_state();
    state.script_mode = ScriptMode::StageSelect;
    let effects = scene.tick(&mut state, &idle_inputs());
    assert_eq!(
        effects,
        vec![Effect::ExtTickStageSelect, Effect::ExtTickFlash, Effect::ExtRunTextScript]
    );
}

#[test]
fn world_tick_through_tick_resolves_collisions() {
    // The scene-level tick must actually run the world pipeline: a
    // lethal bullet placed before the call leaves a dead NPC and a
    // removal request afterwards.
    let mut scene = GameScene::new(0);
    scene.player1.cond.alive = true;
    let mut npc = simcore::npc::Npc {
        id: 5,
        npc_type: 1,
        x: 0,
        y: 0,
        prev_x: 0,
        prev_y: 0,
        life: 10,
        shock: 0,
        event_num: 0,
        size: 1,
        cond: Default::default(),
        npc_flags: Default::default(),
        hit_bounds: simcore::common::Rect { left: 512, top: 512, right: 512, bottom: 512 },
        display_bounds: simcore::common::Rect { left: 512, top: 512, right: 512, bottom: 512 },
        popup_value: 0,
    };
    npc.cond.alive = true;
    npc.npc_flags.shootable = true;
    scene.npc_list.push(npc);
    let mut bullet = simcore::weapon::Bullet {
        btype: 1,
        x: 0,
        y: 0,
        prev_x: 0,
        prev_y: 0,
        life: 3,
        damage: 10,
        enemy_hit_width: 512,
        enemy_hit_height: 512,
        cond: Default::default(),
        weapon_flags: Default::default(),
        hit_bounds: simcore::common::Rect { left: 256, top: 256, right: 256, bottom: 256 },
        direction: simcore::common::Direction::Left,
    };
    bullet.cond.alive = true;
    scene.bullet_manager.bullets.push(bullet);

    let mut state = world_state();
    let effects = scene.tick(&mut state, &idle_inputs());
    assert_eq!(scene.npc_list[0].life, 0);
    assert!(!scene.npc_list[0].cond.alive);
    assert!(effects.contains(&Effect::KillNpc { id: 5, vanish: true, can_drop_missile: false }));
}
