use simcore::collision::{hit_boss_part_with_bullet, hit_npc_with_bullet, resolve_npc_list};
use simcore::common::{Cond, Rect};
use simcore::effects::Effect;
use simcore::npc::Npc;
use simcore::state::ControlFlags;
use simcore::weapon::{Bullet, WeaponFlags};
use simcore::common::Direction;

fn live_cond() -> Cond {
    Cond { alive: true, hidden: false, interacted: false, explode_die: false, damage_boss: false, drs_novanish: false }
}

fn shootable_npc(life: u16) -> Npc {
    let mut npc = blank_npc();
    npc.life = life;
    npc.npc_flags.shootable = true;
    npc
}

fn blank_npc() -> Npc {
    Npc {
        id: 7,
        npc_type: 42,
        x: 0,
        y: 0,
        prev_x: 0,
        prev_y: 0,
        life: 1,
        shock: 0,
        event_num: 300,
        size: 1,
        cond: live_cond(),
        npc_flags: Default::default(),
        hit_bounds: Rect { left: 512, top: 512, right: 512, bottom: 512 },
        display_bounds: Rect { left: 512, top: 512, right: 512, bottom: 512 },
        popup_value: 0,
    }
}

fn touching_bullet(damage: i16) -> Bullet {
    Bullet {
        btype: 1,
        x: 0,
        y: 0,
        prev_x: 0,
        prev_y: 0,
        life: 3,
        damage,
        enemy_hit_width: 512,
        enemy_hit_height: 512,
        cond: live_cond(),
        weapon_flags: WeaponFlags { flag_x10: false },
        hit_bounds: Rect { left: 256, top: 256, right: 256, bottom: 256 },
        direction: Direction::Left,
    }
}

#[test]
fn lethal_hit_marks_standard_death_without_hurt_cue() {
    // A bullet with damage 10 against an NPC with life 10 and no kill
    // script: life reaches 0 and the NPC is marked for the standard
    // death transition, with no hurt cue in the same tick.
    let mut npc = shootable_npc(10);
    let mut bullet = touching_bullet(10);
    let mut flags = ControlFlags::default();
    let mut effects: Vec<Effect> = Vec::new();

    hit_npc_with_bullet(&mut npc, &mut bullet, true, &mut flags, &mut effects);

    assert_eq!(npc.life, 0);
    assert!(npc.cond.explode_die);
    assert!(effects.is_empty());
    assert!(!flags.tick_world);
    assert_eq!(bullet.life, 2);
}

#[test]
fn lethal_hit_with_kill_script_defers_death() {
    let mut npc = shootable_npc(10);
    npc.npc_flags.event_when_killed = true;
    let mut bullet = touching_bullet(10);
    let mut flags = ControlFlags::default();
    let mut effects: Vec<Effect> = Vec::new();

    hit_npc_with_bullet(&mut npc, &mut bullet, true, &mut flags, &mut effects);

    assert_eq!(npc.life, 0);
    assert!(!npc.cond.explode_die);
    assert_eq!(effects, vec![Effect::StartScript(300)]);
    assert!(flags.tick_world);
    assert!(flags.interactions_disabled);
}

#[test]
fn surviving_hit_plays_hurt_cue_and_shocks() {
    let mut npc = shootable_npc(30);
    npc.npc_flags.show_damage = true;
    let mut bullet = touching_bullet(10);
    bullet.x = 1000;
    let mut flags = ControlFlags::default();
    let mut effects: Vec<Effect> = Vec::new();

    hit_npc_with_bullet(&mut npc, &mut bullet, true, &mut flags, &mut effects);

    assert_eq!(npc.life, 20);
    assert_eq!(npc.shock, 16);
    assert_eq!(npc.popup_value, -10);
    // A hurt sound, then three hurt particles at the midpoint.
    assert_eq!(effects.len(), 4);
    assert_eq!(effects[0], Effect::PlayHurtSfx(42));
    let caret = Effect::CreateCaret {
        x: 500,
        y: 0,
        ctype: simcore::effects::CaretType::HurtParticles,
        direction: Direction::Left,
    };
    assert_eq!(effects[1], caret);
    assert_eq!(effects[2], caret);
    assert_eq!(effects[3], caret);
}

#[test]
fn spent_bullet_mutates_nothing() {
    // A bullet already at zero life produces no further mutation on any
    // later pair in the same tick.
    let mut npc = shootable_npc(10);
    let mut bullet = touching_bullet(10);
    bullet.life = 0;
    let npc_before = npc;
    let bullet_before = bullet;
    let mut flags = ControlFlags::default();
    let mut effects: Vec<Effect> = Vec::new();

    hit_npc_with_bullet(&mut npc, &mut bullet, true, &mut flags, &mut effects);

    assert_eq!(npc, npc_before);
    assert_eq!(bullet, bullet_before);
    assert!(effects.is_empty());
}

#[test]
fn damage_never_drives_life_negative() {
    let mut npc = shootable_npc(10);
    let mut bullet = touching_bullet(9999);
    let mut flags = ControlFlags::default();
    let mut effects: Vec<Effect> = Vec::new();

    hit_npc_with_bullet(&mut npc, &mut bullet, true, &mut flags, &mut effects);

    assert_eq!(npc.life, 0);
}

#[test]
fn bullet_dissipates_on_solid_obstacle() {
    let mut npc = blank_npc();
    npc.npc_flags.invulnerable = true;
    let mut bullet = touching_bullet(10);
    let mut flags = ControlFlags::default();
    let mut effects: Vec<Effect> = Vec::new();

    hit_npc_with_bullet(&mut npc, &mut bullet, true, &mut flags, &mut effects);

    assert_eq!(bullet.life, 0);
    assert_eq!(npc.life, 1);
    assert_eq!(effects.len(), 2);
    assert_eq!(
        effects[0],
        Effect::CreateCaret {
            x: 0,
            y: 0,
            ctype: simcore::effects::CaretType::ProjectileDissipation,
            direction: Direction::Right,
        }
    );
    assert_eq!(effects[1], Effect::PlaySfx(31));
}

#[test]
fn pass_through_bullet_only_wears_down() {
    let mut npc = blank_npc();
    npc.npc_flags.invulnerable = true;
    let mut bullet = touching_bullet(10);
    bullet.btype = 13;
    let mut flags = ControlFlags::default();
    let mut effects: Vec<Effect> = Vec::new();

    hit_npc_with_bullet(&mut npc, &mut bullet, true, &mut flags, &mut effects);

    assert_eq!(bullet.life, 2);
    assert!(effects.is_empty());
}

#[test]
fn npc_pass_defers_removal_until_after_its_bullets() {
    // Two bullets hit the same NPC in one tick: both are accounted
    // before the kill is handed to the entity-list manager.
    let mut npcs = vec![shootable_npc(12)];
    let mut bullets = vec![touching_bullet(10), touching_bullet(10)];
    let mut flags = ControlFlags::default();
    let mut effects: Vec<Effect> = Vec::new();

    resolve_npc_list(&mut npcs, &mut bullets, true, false, &mut flags, &mut effects);

    assert_eq!(npcs[0].life, 0);
    assert!(!npcs[0].cond.alive);
    assert!(npcs[0].cond.explode_die);
    assert_eq!(bullets[0].life, 2);
    assert_eq!(bullets[1].life, 2);
    let kills: Vec<&Effect> = effects
        .iter()
        .filter(|e| matches!(e, Effect::KillNpc { .. }))
        .collect();
    assert_eq!(kills.len(), 1);
    assert_eq!(*kills[0], Effect::KillNpc { id: 7, vanish: true, can_drop_missile: false });
}

#[test]
fn interactable_shootable_npc_is_exempt() {
    let mut npcs = vec![shootable_npc(10)];
    npcs[0].npc_flags.interactable = true;
    let mut bullets = vec![touching_bullet(10)];
    let mut flags = ControlFlags::default();
    let mut effects: Vec<Effect> = Vec::new();

    resolve_npc_list(&mut npcs, &mut bullets, true, false, &mut flags, &mut effects);

    assert_eq!(npcs[0].life, 10);
    assert_eq!(bullets[0].life, 3);
    assert!(effects.is_empty());
}

#[test]
fn boss_part_redirects_damage_to_aggregate_part() {
    let mut core = blank_npc();
    core.id = 0;
    core.life = 100;
    core.npc_flags.shootable = true;
    let mut limb = blank_npc();
    limb.id = 1;
    limb.life = 50;
    limb.npc_flags.shootable = true;
    limb.cond.damage_boss = true;
    limb.shock = 14; // quiet: no hurt cue this tick
    core.shock = 14;
    let mut parts = vec![core, limb];
    let hurt_sound = vec![52u8, 52u8];
    let death_sound = vec![72u8, 72u8];
    let mut bullet = touching_bullet(10);
    let mut flags = ControlFlags::default();
    let mut effects: Vec<Effect> = Vec::new();

    hit_boss_part_with_bullet(
        &mut parts,
        1,
        &mut bullet,
        true,
        &hurt_sound,
        &death_sound,
        &mut flags,
        &mut effects,
    );

    // The struck limb keeps its own life; the aggregate part absorbs the
    // damage and both take the shock.
    assert_eq!(parts[1].life, 50);
    assert_eq!(parts[0].life, 90);
    assert_eq!(parts[0].shock, 8);
    assert_eq!(bullet.life, 2);
    assert!(effects.is_empty());
}

#[test]
fn boss_part_death_spawns_smoke_and_sound() {
    let mut core = blank_npc();
    core.id = 3;
    core.life = 10;
    core.size = 3;
    core.npc_flags.shootable = true;
    core.x = 111;
    core.y = 222;
    let mut parts = vec![core];
    let hurt_sound = vec![52u8];
    let death_sound = vec![72u8];
    let mut bullet = touching_bullet(10);
    let mut flags = ControlFlags::default();
    let mut effects: Vec<Effect> = Vec::new();

    hit_boss_part_with_bullet(
        &mut parts,
        0,
        &mut bullet,
        true,
        &hurt_sound,
        &death_sound,
        &mut flags,
        &mut effects,
    );

    assert!(!parts[0].cond.alive);
    // The dying part's life field is recycled to hold its id.
    assert_eq!(parts[0].life, 3);
    assert_eq!(effects.len(), 2);
    assert_eq!(effects[0], Effect::PlaySfx(72));
    assert_eq!(
        effects[1],
        Effect::CreateDeathSmoke { x: 111, y: 222, radius: 512, count: 16 }
    );
    // The killing blow also spends the bullet's last lives normally.
    assert_eq!(bullet.life, 2);
    assert!(bullet.cond.alive);
}
