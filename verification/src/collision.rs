//! Bullet-versus-NPC and bullet-versus-boss-part resolution: the per-tick
//! state machine that applies damage, triggers kill scripts or death
//! transitions, dissipates bullets on obstacles and wears bullets down.
//!
//! Every exec function mirrors a spec step function exactly, and the
//! whole pass equals a fold of those steps, so the order-dependent
//! semantics (bullets processed in order, NPCs marked dead mid-pass never
//! touched again, deferred removal) are pinned in the contracts.

use vstd::prelude::*;

use crate::common::tdiv;
use crate::common::tdiv_i64;
use crate::common::Direction;
use crate::effects::{CaretType, Effect};
use crate::npc::{bullet_hits_npc, Npc};
use crate::state::ControlFlags;
use crate::weapon::{is_pass_through_type, Bullet};

verus! {

/// Life after a damage hit, clamped to zero: life never goes negative.
pub open spec fn damage_life(life: u16, damage: int) -> u16 {
    if damage >= life {
        0
    } else {
        (life - damage) as u16
    }
}

/// Damage is always clamped into `[0, life]`: the remaining life never
/// goes negative and never rises.
pub proof fn lemma_damage_clamped(life: u16, damage: int)
    requires
        damage >= 0,
    ensures
        0 <= damage_life(life, damage) <= life,
{
}

/// `i32` sum saturated into the `i32` range.
pub open spec fn sat32(v: int) -> int {
    crate::common::sclamp(v, i32::MIN as int, i32::MAX as int)
}

/// The midpoint between a bullet and its target, where hurt and
/// dissipation particles spawn.
pub fn midpoint(a: i32, b: i32) -> (m: i32)
    ensures
        m as int == tdiv(a + b, 2),
{
    let v: i64 = a as i64 + b as i64;
    proof {
        if v >= 0 {
            vstd::arithmetic::div_mod::lemma_div_is_ordered(v as int, 0xffff_fffe, 2);
            vstd::arithmetic::div_mod::lemma_div_pos_is_pos(v as int, 2);
        } else {
            vstd::arithmetic::div_mod::lemma_div_is_ordered(-v as int, 0x1_0000_0000, 2);
            vstd::arithmetic::div_mod::lemma_div_pos_is_pos(-v as int, 2);
        }
    }
    tdiv_i64(v, 2) as i32
}

/// A bullet takes part in collision processing only while it is alive,
/// carries positive damage, and has life left. A bullet already at zero
/// life mutates nothing on any later pair in the same tick.
pub open spec fn bullet_active(b: Bullet) -> bool {
    b.cond.alive && b.damage > 0 && b.life > 0
}

/// One (bullet, NPC) pair of the resolution state machine. Returns the
/// new NPC, the new bullet, the new control flags, and the emitted
/// effects, in order.
pub open spec fn npc_pair_step(npc: Npc, b: Bullet, p1_alive: bool, flags: ControlFlags) -> (
    Npc,
    Bullet,
    ControlFlags,
    Seq<Effect>,
) {
    if !bullet_active(b) || !bullet_hits_npc(npc, b) {
        (npc, b, flags, Seq::empty())
    } else if npc.npc_flags.shootable {
        let worn = Bullet { life: (b.life - 1) as u16, ..b };
        let life1 = damage_life(npc.life, b.damage as int);
        let popup1 = if npc.npc_flags.show_damage {
            sat32(npc.popup_value - b.damage) as i32
        } else {
            npc.popup_value
        };
        if life1 == 0 {
            if p1_alive && npc.npc_flags.event_when_killed {
                let npc1 = Npc { life: 0, popup_value: popup1, ..npc };
                let flags1 = ControlFlags {
                    tick_world: true,
                    interactions_disabled: true,
                    ..flags
                };
                (npc1, worn, flags1, seq![Effect::StartScript(npc.event_num)])
            } else {
                let npc1 = Npc {
                    life: 0,
                    popup_value: popup1,
                    cond: crate::common::Cond { explode_die: true, ..npc.cond },
                    ..npc
                };
                (npc1, worn, flags, Seq::empty())
            }
        } else {
            if npc.shock < 14 {
                let mid_x = tdiv(b.x + npc.x, 2) as i32;
                let mid_y = tdiv(b.y + npc.y, 2) as i32;
                let caret = Effect::CreateCaret {
                    x: mid_x,
                    y: mid_y,
                    ctype: CaretType::HurtParticles,
                    direction: Direction::Left,
                };
                let npc1 = Npc { life: life1, shock: 16, popup_value: popup1, ..npc };
                (npc1, worn, flags, seq![Effect::PlayHurtSfx(npc.npc_type), caret, caret, caret])
            } else {
                let npc1 = Npc { life: life1, popup_value: popup1, ..npc };
                (npc1, worn, flags, Seq::empty())
            }
        }
    } else if !b.weapon_flags.flag_x10 && !is_pass_through_type(b.btype) {
        let mid_x = tdiv(b.x + npc.x, 2) as i32;
        let mid_y = tdiv(b.y + npc.y, 2) as i32;
        let dissipated = Bullet { life: 0, ..b };
        let caret = Effect::CreateCaret {
            x: mid_x,
            y: mid_y,
            ctype: CaretType::ProjectileDissipation,
            direction: Direction::Right,
        };
        (npc, dissipated, flags, seq![caret, Effect::PlaySfx(31)])
    } else {
        let worn = Bullet { life: (b.life - 1) as u16, ..b };
        (npc, worn, flags, Seq::empty())
    }
}

/// Resolves one (bullet, NPC) pair, exactly as `npc_pair_step` says.
/// A bullet with zero remaining life mutates nothing.
pub fn hit_npc_with_bullet(
    npc: &mut Npc,
    bullet: &mut Bullet,
    p1_alive: bool,
    flags: &mut ControlFlags,
    effects: &mut Vec<Effect>,
)
    ensures
        ({
            let step = npc_pair_step(*old(npc), *old(bullet), p1_alive, *old(flags));
            &&& *final(npc) == step.0
            &&& *final(bullet) == step.1
            &&& *final(flags) == step.2
            &&& final(effects)@ == old(effects)@ + step.3
        }),
        old(bullet).life == 0 ==> {
            &&& *final(npc) == *old(npc)
            &&& *final(bullet) == *old(bullet)
            &&& *final(flags) == *old(flags)
            &&& final(effects)@ == old(effects)@
        },
{
    if !(bullet.cond.alive && bullet.damage > 0 && bullet.life > 0)
        || !npc.collides_with_bullet(bullet) {
        return;
    }

    if npc.npc_flags.shootable {
        let dmg = bullet.damage as u16;
        let life1: u16 = if dmg >= npc.life {
            0
        } else {
            npc.life - dmg
        };
        if npc.npc_flags.show_damage {
            let p: i64 = npc.popup_value as i64 - bullet.damage as i64;
            npc.popup_value = if p < i32::MIN as i64 {
                i32::MIN
            } else {
                p as i32
            };
        }
        npc.life = life1;
        bullet.life = bullet.life - 1;

        if life1 == 0 {
            if p1_alive && npc.npc_flags.event_when_killed {
                flags.tick_world = true;
                flags.interactions_disabled = true;
                effects.push(Effect::StartScript(npc.event_num));
            } else {
                npc.cond.explode_die = true;
            }
        } else {
            if npc.shock < 14 {
                effects.push(Effect::PlayHurtSfx(npc.npc_type));
                npc.shock = 16;
                let mid_x = midpoint(bullet.x, npc.x);
                let mid_y = midpoint(bullet.y, npc.y);
                let caret = Effect::CreateCaret {
                    x: mid_x,
                    y: mid_y,
                    ctype: CaretType::HurtParticles,
                    direction: Direction::Left,
                };
                effects.push(caret);
                effects.push(caret);
                effects.push(caret);
            }
        }
    } else if !bullet.weapon_flags.flag_x10 && !bullet.is_pass_through() {
        let mid_x = midpoint(bullet.x, npc.x);
        let mid_y = midpoint(bullet.y, npc.y);
        let caret = Effect::CreateCaret {
            x: mid_x,
            y: mid_y,
            ctype: CaretType::ProjectileDissipation,
            direction: Direction::Right,
        };
        effects.push(caret);
        effects.push(Effect::PlaySfx(31));
        bullet.life = 0;
    } else {
        bullet.life = bullet.life - 1;
    }
}

/// The state after the first `k` bullets have been resolved against one
/// NPC, in order.
pub open spec fn npc_bullets_fold(
    npc: Npc,
    bullets: Seq<Bullet>,
    k: int,
    p1_alive: bool,
    flags: ControlFlags,
) -> (Npc, Seq<Bullet>, ControlFlags, Seq<Effect>)
    decreases k,
{
    if k <= 0 {
        (npc, bullets, flags, Seq::empty())
    } else {
        let prev = npc_bullets_fold(npc, bullets, k - 1, p1_alive, flags);
        let step = npc_pair_step(prev.0, prev.1[k - 1], p1_alive, prev.2);
        (step.0, prev.1.update(k - 1, step.1), step.2, prev.3 + step.3)
    }
}

/// Resolves every bullet against one NPC, in bullet order, exactly as
/// the fold of `npc_pair_step` says.
pub fn resolve_npc_bullets(
    npc: &mut Npc,
    bullets: &mut Vec<Bullet>,
    p1_alive: bool,
    flags: &mut ControlFlags,
    effects: &mut Vec<Effect>,
)
    ensures
        ({
            let r = npc_bullets_fold(
                *old(npc),
                old(bullets)@,
                old(bullets)@.len() as int,
                p1_alive,
                *old(flags),
            );
            &&& *final(npc) == r.0
            &&& final(bullets)@ == r.1
            &&& *final(flags) == r.2
            &&& final(effects)@ == old(effects)@ + r.3
        }),
{
    let ghost npc0 = *npc;
    let ghost bullets0 = bullets@;
    let ghost flags0 = *flags;
    let ghost effects0 = effects@;
    let n = bullets.len();
    let mut i: usize = 0;
    while i < n
        invariant
            i <= n,
            n == bullets0.len(),
            bullets@.len() == n,
            ({
                let r = npc_bullets_fold(npc0, bullets0, i as int, p1_alive, flags0);
                &&& *npc == r.0
                &&& bullets@ == r.1
                &&& *flags == r.2
                &&& effects@ == effects0 + r.3
            }),
        decreases n - i,
    {
        let mut b = bullets[i];
        hit_npc_with_bullet(npc, &mut b, p1_alive, flags, effects);
        bullets[i] = b;
        i = i + 1;
    }
}

/// The state after the first `k` NPCs have been resolved against the
/// bullet set. A live NPC that is both shootable and interactable is
/// exempt from bullet processing; an NPC marked for an explosion death
/// after its bullet pass is flipped dead and its removal is deferred to
/// the entity-list manager through a `KillNpc` effect.
pub open spec fn npcs_fold(
    npcs: Seq<Npc>,
    k: int,
    bullets: Seq<Bullet>,
    p1_alive: bool,
    can_drop_missile: bool,
    flags: ControlFlags,
) -> (Seq<Npc>, Seq<Bullet>, ControlFlags, Seq<Effect>)
    decreases k,
{
    if k <= 0 {
        (npcs, bullets, flags, Seq::empty())
    } else {
        let prev = npcs_fold(npcs, k - 1, bullets, p1_alive, can_drop_missile, flags);
        let npc = prev.0[k - 1];
        if npc.cond.alive && !(npc.npc_flags.shootable && npc.npc_flags.interactable) {
            let inner = npc_bullets_fold(npc, prev.1, prev.1.len() as int, p1_alive, prev.2);
            let npc1 = inner.0;
            if npc1.cond.explode_die {
                let npc2 = Npc {
                    cond: crate::common::Cond { alive: false, ..npc1.cond },
                    ..npc1
                };
                let kill = Effect::KillNpc {
                    id: npc1.id,
                    vanish: !npc1.cond.drs_novanish,
                    can_drop_missile,
                };
                (prev.0.update(k - 1, npc2), inner.1, inner.2, prev.3 + inner.3 + seq![kill])
            } else {
                (prev.0.update(k - 1, npc1), inner.1, inner.2, prev.3 + inner.3)
            }
        } else {
            prev
        }
    }
}

/// Resolves the whole NPC list against the bullet set, in NPC order.
#[verifier::rlimit(100)]
#[verifier::spinoff_prover]
pub fn resolve_npc_list(
    npcs: &mut Vec<Npc>,
    bullets: &mut Vec<Bullet>,
    p1_alive: bool,
    can_drop_missile: bool,
    flags: &mut ControlFlags,
    effects: &mut Vec<Effect>,
)
    ensures
        ({
            let r = npcs_fold(
                old(npcs)@,
                old(npcs)@.len() as int,
                old(bullets)@,
                p1_alive,
                can_drop_missile,
                *old(flags),
            );
            &&& final(npcs)@ == r.0
            &&& final(bullets)@ == r.1
            &&& *final(flags) == r.2
            &&& final(effects)@ == old(effects)@ + r.3
        }),
{
    let ghost npcs0 = npcs@;
    let ghost bullets0 = bullets@;
    let ghost flags0 = *flags;
    let ghost effects0 = effects@;
    let n = npcs.len();
    let mut i: usize = 0;
    while i < n
        invariant
            i <= n,
            n == npcs0.len(),
            npcs@.len() == n,
            ({
                let r = npcs_fold(npcs0, i as int, bullets0, p1_alive, can_drop_missile, flags0);
                &&& npcs@ == r.0
                &&& bullets@ == r.1
                &&& *flags == r.2
                &&& effects@ == effects0 + r.3
            }),
        decreases n - i,
    {
        let mut npc = npcs[i];
        if npc.cond.alive && !(npc.npc_flags.shootable && npc.npc_flags.interactable) {
            resolve_npc_bullets(&mut npc, bullets, p1_alive, flags, effects);
            if npc.cond.explode_die {
                effects.push(Effect::KillNpc {
                    id: npc.id,
                    vanish: !npc.cond.drs_novanish,
                    can_drop_missile,
                });
                npc.cond.alive = false;
            }
            npcs[i] = npc;
        }
        i = i + 1;
    }
}

/// How many smoke particles a dying boss part spawns, growing with its
/// size class.
pub open spec fn destroy_count(size: u8) -> u32 {
    if size >= 1 {
        4u32 << ((size - 1) as u32)
    } else {
        4u32
    }
}

/// One (bullet, boss part) pair. A part flagged `damage_boss` redirects
/// all damage bookkeeping (life, the life-for-id quirk, death, shock) to
/// the aggregate part at index 0, while the struck part's own position
/// still anchors the local death effects. Bullets wear down by one on a
/// damaging hit and die at zero life.
pub open spec fn boss_pair_step(
    parts: Seq<Npc>,
    i: int,
    b: Bullet,
    p1_alive: bool,
    hurt_sound: Seq<u8>,
    death_sound: Seq<u8>,
    flags: ControlFlags,
) -> (Seq<Npc>, Bullet, ControlFlags, Seq<Effect>) {
    let part = parts[i];
    if !bullet_active(b) || !bullet_hits_npc(part, b) {
        (parts, b, flags, Seq::empty())
    } else if part.npc_flags.shootable {
        let idx = if part.cond.damage_boss {
            0
        } else {
            i
        };
        let target = parts[idx];
        let life1 = damage_life(target.life, b.damage as int);
        let worn_life = (b.life - 1) as u16;
        let worn = Bullet {
            life: worn_life,
            cond: crate::common::Cond { alive: worn_life >= 1, ..b.cond },
            ..b
        };
        if life1 == 0 {
            if p1_alive && target.npc_flags.event_when_killed {
                let dead = Npc { life: target.id, ..target };
                let flags1 = ControlFlags {
                    tick_world: true,
                    interactions_disabled: true,
                    ..flags
                };
                (parts.update(idx, dead), worn, flags1, seq![Effect::StartScript(target.event_num)])
            } else {
                let dead = Npc {
                    life: target.id,
                    cond: crate::common::Cond { alive: false, ..target.cond },
                    ..target
                };
                let smoke = Effect::CreateDeathSmoke {
                    x: part.x,
                    y: part.y,
                    radius: target.display_bounds.right,
                    count: destroy_count(target.size),
                };
                (
                    parts.update(idx, dead),
                    worn,
                    flags,
                    seq![Effect::PlaySfx(death_sound[idx]), smoke],
                )
            }
        } else {
            let hurt_effects = if target.shock < 14 {
                let caret = Effect::CreateCaret {
                    x: b.x,
                    y: b.y,
                    ctype: CaretType::HurtParticles,
                    direction: Direction::Left,
                };
                seq![caret, caret, caret, Effect::PlaySfx(hurt_sound[idx])]
            } else {
                Seq::empty()
            };
            let t1 = Npc { life: life1, shock: 8, ..target };
            let parts1 = parts.update(idx, t1);
            let parts2 = parts1.update(0, Npc { shock: 8, ..parts1[0] });
            (parts2, worn, flags, hurt_effects)
        }
    } else if is_pass_through_type(b.btype) {
        (parts, Bullet { life: (b.life - 1) as u16, ..b }, flags, Seq::empty())
    } else if !b.weapon_flags.flag_x10 {
        let caret = Effect::CreateCaret {
            x: b.x,
            y: b.y,
            ctype: CaretType::ProjectileDissipation,
            direction: Direction::Right,
        };
        (parts, Bullet { life: 0, ..b }, flags, seq![caret, Effect::PlaySfx(31)])
    } else {
        (parts, b, flags, Seq::empty())
    }
}

fn destroy_count_exec(size: u8) -> (r: u32)
    requires
        size <= 16,
    ensures
        r == destroy_count(size),
{
    if size >= 1 {
        4u32 << ((size - 1) as u32)
    } else {
        4u32
    }
}

/// Resolves one (bullet, boss part) pair, exactly as `boss_pair_step`
/// says. A bullet with zero remaining life mutates nothing.
#[verifier::rlimit(100)]
#[verifier::spinoff_prover]
pub fn hit_boss_part_with_bullet(
    parts: &mut Vec<Npc>,
    i: usize,
    bullet: &mut Bullet,
    p1_alive: bool,
    hurt_sound: &Vec<u8>,
    death_sound: &Vec<u8>,
    flags: &mut ControlFlags,
    effects: &mut Vec<Effect>,
)
    requires
        i < old(parts)@.len(),
        hurt_sound@.len() == old(parts)@.len(),
        death_sound@.len() == old(parts)@.len(),
        forall|k: int| 0 <= k < old(parts)@.len() ==> (#[trigger] old(parts)@[k]).size <= 16,
    ensures
        ({
            let step = boss_pair_step(
                old(parts)@,
                i as int,
                *old(bullet),
                p1_alive,
                hurt_sound@,
                death_sound@,
                *old(flags),
            );
            &&& final(parts)@ == step.0
            &&& *final(bullet) == step.1
            &&& *final(flags) == step.2
            &&& final(effects)@ == old(effects)@ + step.3
        }),
        old(bullet).life == 0 ==> {
            &&& final(parts)@ == old(parts)@
            &&& *final(bullet) == *old(bullet)
            &&& *final(flags) == *old(flags)
            &&& final(effects)@ == old(effects)@
        },
{
    let ghost step = boss_pair_step(
        parts@,
        i as int,
        *bullet,
        p1_alive,
        hurt_sound@,
        death_sound@,
        *flags,
    );
    let ghost effects0 = effects@;
    let part = parts[i];
    if !(bullet.cond.alive && bullet.damage > 0 && bullet.life > 0)
        || !part.collides_with_bullet(bullet) {
        proof {
            assert(effects@ =~= effects0 + step.3);
        }
        return;
    }

    if part.npc_flags.shootable {
        let idx: usize = if part.cond.damage_boss {
            0
        } else {
            i
        };
        let mut target = parts[idx];
        let dmg = bullet.damage as u16;
        let life1: u16 = if dmg >= target.life {
            0
        } else {
            target.life - dmg
        };
        bullet.life = bullet.life - 1;
        if bullet.life < 1 {
            bullet.cond.alive = false;
        }
        proof {
            assert(*bullet == step.1);
        }

        if life1 == 0 {
            target.life = target.id;
            if p1_alive && target.npc_flags.event_when_killed {
                flags.tick_world = true;
                flags.interactions_disabled = true;
                effects.push(Effect::StartScript(target.event_num));
                parts[idx] = target;
                proof {
                    assert(parts@ =~= step.0);
                    assert(effects@ =~= effects0 + step.3);
                }
            } else {
                effects.push(Effect::PlaySfx(death_sound[idx]));
                let count: u32 = destroy_count_exec(target.size);
                effects.push(Effect::CreateDeathSmoke {
                    x: part.x,
                    y: part.y,
                    radius: target.display_bounds.right,
                    count,
                });
                target.cond.alive = false;
                parts[idx] = target;
                proof {
                    assert(parts@ =~= step.0);
                    assert(effects@ =~= effects0 + step.3);
                }
            }
        } else {
            if target.shock < 14 {
                let caret = Effect::CreateCaret {
                    x: bullet.x,
                    y: bullet.y,
                    ctype: CaretType::HurtParticles,
                    direction: Direction::Left,
                };
                effects.push(caret);
                effects.push(caret);
                effects.push(caret);
                effects.push(Effect::PlaySfx(hurt_sound[idx]));
            }
            target.life = life1;
            target.shock = 8;
            parts[idx] = target;
            let mut part0 = parts[0];
            part0.shock = 8;
            parts[0] = part0;
            proof {
                assert(parts@ =~= step.0);
                assert(effects@ =~= effects0 + step.3);
            }
        }
    } else if bullet.is_pass_through() {
        bullet.life = bullet.life - 1;
        proof {
            assert(effects@ =~= effects0 + step.3);
        }
    } else if !bullet.weapon_flags.flag_x10 {
        let caret = Effect::CreateCaret {
            x: bullet.x,
            y: bullet.y,
            ctype: CaretType::ProjectileDissipation,
            direction: Direction::Right,
        };
        effects.push(caret);
        effects.push(Effect::PlaySfx(31));
        bullet.life = 0;
        proof {
            assert(effects@ =~= effects0 + step.3);
        }
    } else {
        proof {
            assert(effects@ =~= effects0 + step.3);
        }
    }
}

/// The state after the first `k` bullets have been resolved against the
/// boss part at index `i`, in order.
pub open spec fn boss_bullets_fold(
    parts: Seq<Npc>,
    i: int,
    bullets: Seq<Bullet>,
    k: int,
    p1_alive: bool,
    hurt_sound: Seq<u8>,
    death_sound: Seq<u8>,
    flags: ControlFlags,
) -> (Seq<Npc>, Seq<Bullet>, ControlFlags, Seq<Effect>)
    decreases k,
{
    if k <= 0 {
        (parts, bullets, flags, Seq::empty())
    } else {
        let prev = boss_bullets_fold(parts, i, bullets, k - 1, p1_alive, hurt_sound, death_sound, flags);
        let step = boss_pair_step(prev.0, i, prev.1[k - 1], p1_alive, hurt_sound, death_sound, prev.2);
        (step.0, prev.1.update(k - 1, step.1), step.2, prev.3 + step.3)
    }
}

/// Resolves every bullet against the boss part at index `i`, in order.
fn resolve_boss_part_bullets(
    parts: &mut Vec<Npc>,
    i: usize,
    bullets: &mut Vec<Bullet>,
    p1_alive: bool,
    hurt_sound: &Vec<u8>,
    death_sound: &Vec<u8>,
    flags: &mut ControlFlags,
    effects: &mut Vec<Effect>,
)
    requires
        i < old(parts)@.len(),
        hurt_sound@.len() == old(parts)@.len(),
        death_sound@.len() == old(parts)@.len(),
        forall|k: int| 0 <= k < old(parts)@.len() ==> (#[trigger] old(parts)@[k]).size <= 16,
    ensures
        ({
            let r = boss_bullets_fold(
                old(parts)@,
                i as int,
                old(bullets)@,
                old(bullets)@.len() as int,
                p1_alive,
                hurt_sound@,
                death_sound@,
                *old(flags),
            );
            &&& final(parts)@ == r.0
            &&& final(bullets)@ == r.1
            &&& *final(flags) == r.2
            &&& final(effects)@ == old(effects)@ + r.3
        }),
{
    let ghost parts0 = parts@;
    let ghost bullets0 = bullets@;
    let ghost flags0 = *flags;
    let ghost effects0 = effects@;
    let n = bullets.len();
    let mut k: usize = 0;
    while k < n
        invariant
            k <= n,
            n == bullets0.len(),
            bullets@.len() == n,
            i < parts0.len(),
            parts@.len() == parts0.len(),
            hurt_sound@.len() == parts0.len(),
            death_sound@.len() == parts0.len(),
            forall|m: int| 0 <= m < parts0.len() ==> (#[trigger] parts@[m]).size <= 16,
            forall|m: int| 0 <= m < parts0.len() ==> (#[trigger] parts0[m]).size <= 16,
            ({
                let r = boss_bullets_fold(
                    parts0,
                    i as int,
                    bullets0,
                    k as int,
                    p1_alive,
                    hurt_sound@,
                    death_sound@,
                    flags0,
                );
                &&& parts@ == r.0
                &&& bullets@ == r.1
                &&& *flags == r.2
                &&& effects@ == effects0 + r.3
            }),
        decreases n - k,
    {
        let mut b = bullets[k];
        hit_boss_part_with_bullet(parts, i, &mut b, p1_alive, hurt_sound, death_sound, flags, effects);
        bullets[k] = b;
        k = k + 1;
    }
}

/// The state after the first `k` boss parts have been resolved against
/// the bullet set. Only parts alive at their turn are processed.
pub open spec fn boss_parts_fold(
    parts: Seq<Npc>,
    k: int,
    bullets: Seq<Bullet>,
    p1_alive: bool,
    hurt_sound: Seq<u8>,
    death_sound: Seq<u8>,
    flags: ControlFlags,
) -> (Seq<Npc>, Seq<Bullet>, ControlFlags, Seq<Effect>)
    decreases k,
{
    if k <= 0 {
        (parts, bullets, flags, Seq::empty())
    } else {
        let prev = boss_parts_fold(parts, k - 1, bullets, p1_alive, hurt_sound, death_sound, flags);
        if prev.0[k - 1].cond.alive {
            let inner = boss_bullets_fold(
                prev.0,
                k - 1,
                prev.1,
                prev.1.len() as int,
                p1_alive,
                hurt_sound,
                death_sound,
                prev.2,
            );
            (inner.0, inner.1, inner.2, prev.3 + inner.3)
        } else {
            prev
        }
    }
}

/// A boss part's bullet pass keeps the part count and the size bound, so
/// the next part's pass is well-formed.
pub proof fn lemma_boss_bullets_fold_wf(
    parts: Seq<Npc>,
    i: int,
    bullets: Seq<Bullet>,
    k: int,
    p1_alive: bool,
    hurt_sound: Seq<u8>,
    death_sound: Seq<u8>,
    flags: ControlFlags,
)
    requires
        0 <= i < parts.len(),
        k <= bullets.len(),
        forall|m: int| 0 <= m < parts.len() ==> (#[trigger] parts[m]).size <= 16,
    ensures
        ({
            let r = boss_bullets_fold(parts, i, bullets, k, p1_alive, hurt_sound, death_sound, flags);
            &&& r.0.len() == parts.len()
            &&& r.1.len() == bullets.len()
            &&& forall|m: int| 0 <= m < parts.len() ==> (#[trigger] r.0[m]).size <= 16
        }),
    decreases k,
{
    if k > 0 {
        lemma_boss_bullets_fold_wf(parts, i, bullets, k - 1, p1_alive, hurt_sound, death_sound, flags);
        let prev = boss_bullets_fold(parts, i, bullets, k - 1, p1_alive, hurt_sound, death_sound, flags);
        let b = prev.1[k - 1];
        let step = boss_pair_step(prev.0, i, b, p1_alive, hurt_sound, death_sound, prev.2);
        assert(prev.0.len() == parts.len());
        assert(prev.0[0].size <= 16);
        assert(prev.0[i].size <= 16);
        assert(step.0.len() == prev.0.len());
        let r = boss_bullets_fold(parts, i, bullets, k, p1_alive, hurt_sound, death_sound, flags);
        assert(r.0 == step.0);
        assert(r.1 == prev.1.update(k - 1, step.1));
        assert forall|m: int| 0 <= m < parts.len() implies (#[trigger] step.0[m]).size <= 16 by {
            assert(prev.0[m].size <= 16);
            assert(prev.0[0].size <= 16);
            assert(prev.0[i].size <= 16);
        }
    }
}

/// Resolves every live boss part against the bullet set, in part order.
pub fn resolve_boss_parts(
    parts: &mut Vec<Npc>,
    bullets: &mut Vec<Bullet>,
    p1_alive: bool,
    hurt_sound: &Vec<u8>,
    death_sound: &Vec<u8>,
    flags: &mut ControlFlags,
    effects: &mut Vec<Effect>,
)
    requires
        hurt_sound@.len() == old(parts)@.len(),
        death_sound@.len() == old(parts)@.len(),
        forall|k: int| 0 <= k < old(parts)@.len() ==> (#[trigger] old(parts)@[k]).size <= 16,
    ensures
        ({
            let r = boss_parts_fold(
                old(parts)@,
                old(parts)@.len() as int,
                old(bullets)@,
                p1_alive,
                hurt_sound@,
                death_sound@,
                *old(flags),
            );
            &&& final(parts)@ == r.0
            &&& final(bullets)@ == r.1
            &&& *final(flags) == r.2
            &&& final(effects)@ == old(effects)@ + r.3
        }),
{
    let ghost parts0 = parts@;
    let ghost bullets0 = bullets@;
    let ghost flags0 = *flags;
    let ghost effects0 = effects@;
    let n = parts.len();
    let mut i: usize = 0;
    while i < n
        invariant
            i <= n,
            n == parts0.len(),
            parts@.len() == n,
            bullets@.len() == bullets0.len(),
            hurt_sound@.len() == n,
            death_sound@.len() == n,
            forall|m: int| 0 <= m < n ==> (#[trigger] parts@[m]).size <= 16,
            forall|m: int| 0 <= m < n ==> (#[trigger] parts0[m]).size <= 16,
            ({
                let r = boss_parts_fold(
                    parts0,
                    i as int,
                    bullets0,
                    p1_alive,
                    hurt_sound@,
                    death_sound@,
                    flags0,
                );
                &&& parts@ == r.0
                &&& bullets@ == r.1
                &&& *flags == r.2
                &&& effects@ == effects0 + r.3
            }),
        decreases n - i,
    {
        let ghost rmid = boss_parts_fold(
            parts0,
            i as int,
            bullets0,
            p1_alive,
            hurt_sound@,
            death_sound@,
            flags0,
        );
        if parts[i].cond.alive {
            resolve_boss_part_bullets(parts, i, bullets, p1_alive, hurt_sound, death_sound, flags, effects);
            proof {
                lemma_boss_bullets_fold_wf(
                    rmid.0,
                    i as int,
                    rmid.1,
                    rmid.1.len() as int,
                    p1_alive,
                    hurt_sound@,
                    death_sound@,
                    rmid.2,
                );
                let inner = boss_bullets_fold(
                    rmid.0,
                    i as int,
                    rmid.1,
                    rmid.1.len() as int,
                    p1_alive,
                    hurt_sound@,
                    death_sound@,
                    rmid.2,
                );
                let rnext = boss_parts_fold(
                    parts0,
                    i as int + 1,
                    bullets0,
                    p1_alive,
                    hurt_sound@,
                    death_sound@,
                    flags0,
                );
                assert(rnext.3 == rmid.3 + inner.3);
                assert(effects@ =~= effects0 + rnext.3);
            }
        }
        i = i + 1;
    }
}

/// No collision step touches the overall control-enabled flag: only the
/// script-start flags change during resolution.
pub proof fn lemma_npc_bullets_fold_control(
    npc: Npc,
    bullets: Seq<Bullet>,
    k: int,
    p1_alive: bool,
    flags: ControlFlags,
)
    ensures
        npc_bullets_fold(npc, bullets, k, p1_alive, flags).2.control_enabled
            == flags.control_enabled,
    decreases k,
{
    if k > 0 {
        lemma_npc_bullets_fold_control(npc, bullets, k - 1, p1_alive, flags);
    }
}

pub proof fn lemma_npcs_fold_control(
    npcs: Seq<Npc>,
    k: int,
    bullets: Seq<Bullet>,
    p1_alive: bool,
    can_drop_missile: bool,
    flags: ControlFlags,
)
    ensures
        npcs_fold(npcs, k, bullets, p1_alive, can_drop_missile, flags).2.control_enabled
            == flags.control_enabled,
    decreases k,
{
    if k > 0 {
        lemma_npcs_fold_control(npcs, k - 1, bullets, p1_alive, can_drop_missile, flags);
        let prev = npcs_fold(npcs, k - 1, bullets, p1_alive, can_drop_missile, flags);
        lemma_npc_bullets_fold_control(prev.0[k - 1], prev.1, prev.1.len() as int, p1_alive, prev.2);
    }
}

pub proof fn lemma_boss_bullets_fold_control(
    parts: Seq<Npc>,
    i: int,
    bullets: Seq<Bullet>,
    k: int,
    p1_alive: bool,
    hurt_sound: Seq<u8>,
    death_sound: Seq<u8>,
    flags: ControlFlags,
)
    ensures
        boss_bullets_fold(parts, i, bullets, k, p1_alive, hurt_sound, death_sound, flags).2.control_enabled
            == flags.control_enabled,
    decreases k,
{
    if k > 0 {
        lemma_boss_bullets_fold_control(parts, i, bullets, k - 1, p1_alive, hurt_sound, death_sound, flags);
    }
}

pub proof fn lemma_boss_parts_fold_control(
    parts: Seq<Npc>,
    k: int,
    bullets: Seq<Bullet>,
    p1_alive: bool,
    hurt_sound: Seq<u8>,
    death_sound: Seq<u8>,
    flags: ControlFlags,
)
    ensures
        boss_parts_fold(parts, k, bullets, p1_alive, hurt_sound, death_sound, flags).2.control_enabled
            == flags.control_enabled,
    decreases k,
{
    if k > 0 {
        lemma_boss_parts_fold_control(parts, k - 1, bullets, p1_alive, hurt_sound, death_sound, flags);
        let prev = boss_parts_fold(parts, k - 1, bullets, p1_alive, hurt_sound, death_sound, flags);
        lemma_boss_bullets_fold_control(
            prev.0,
            k - 1,
            prev.1,
            prev.1.len() as int,
            p1_alive,
            hurt_sound,
            death_sound,
            prev.2,
        );
    }
}

/// The summed damage of the bullets among the first `k` that enter the
/// pass eligible to hit (alive, with positive damage and life left).
pub open spec fn bullet_damage_sum(bullets: Seq<Bullet>, k: int) -> int
    decreases k,
{
    if k <= 0 {
        0
    } else {
        bullet_damage_sum(bullets, k - 1) + (if bullet_active(bullets[k - 1]) {
            bullets[k - 1].damage as int
        } else {
            0
        })
    }
}

/// Each (bullet, NPC) pair is evaluated at most once per pass: across
/// one NPC's bullet pass, the NPC's life never rises, and it falls by at
/// most the sum of the damages of the bullets that entered the pass
/// eligible — each bullet's damage counted once. Bullet damage values
/// and liveness flags pass through the pass unchanged, and bullet life
/// never rises, so no bullet can become eligible mid-pass.
pub proof fn lemma_npc_bullets_fold_damage_bound(
    npc: Npc,
    bullets: Seq<Bullet>,
    k: int,
    p1_alive: bool,
    flags: ControlFlags,
)
    requires
        0 <= k <= bullets.len(),
    ensures
        ({
            let r = npc_bullets_fold(npc, bullets, k, p1_alive, flags);
            &&& r.0.life <= npc.life
            &&& r.0.life >= npc.life - bullet_damage_sum(bullets, k)
            &&& r.1.len() == bullets.len()
            &&& forall|i: int|
                0 <= i < bullets.len() ==> {
                    &&& (#[trigger] r.1[i]).damage == bullets[i].damage
                    &&& r.1[i].cond.alive == bullets[i].cond.alive
                    &&& r.1[i].life <= bullets[i].life
                }
        }),
    decreases k,
{
    if k > 0 {
        lemma_npc_bullets_fold_damage_bound(npc, bullets, k - 1, p1_alive, flags);
        let prev = npc_bullets_fold(npc, bullets, k - 1, p1_alive, flags);
        let b = prev.1[k - 1];
        let step = npc_pair_step(prev.0, b, p1_alive, prev.2);
        assert(bullet_active(b) ==> bullet_active(bullets[k - 1]));
        assert(step.0.life <= prev.0.life);
        assert(step.0.life >= prev.0.life - (if bullet_active(bullets[k - 1]) {
            bullets[k - 1].damage as int
        } else {
            0
        }));
    }
}

/// Eligible damage is never negative: only bullets with positive damage
/// contribute.
proof fn lemma_damage_sum_nonneg(bullets: Seq<Bullet>, k: int)
    ensures
        bullet_damage_sum(bullets, k) >= 0,
    decreases k,
{
    if k > 0 {
        lemma_damage_sum_nonneg(bullets, k - 1);
    }
}

/// A pointwise-weaker bullet set (same damages and liveness, no more
/// life) never sums to more eligible damage.
proof fn lemma_damage_sum_monotone(b1: Seq<Bullet>, b2: Seq<Bullet>, k: int)
    requires
        b1.len() == b2.len(),
        0 <= k <= b1.len(),
        forall|i: int|
            0 <= i < b1.len() ==> {
                &&& (#[trigger] b1[i]).damage == b2[i].damage
                &&& b1[i].cond.alive == b2[i].cond.alive
                &&& b1[i].life <= b2[i].life
            },
    ensures
        bullet_damage_sum(b1, k) <= bullet_damage_sum(b2, k),
    decreases k,
{
    if k > 0 {
        lemma_damage_sum_monotone(b1, b2, k - 1);
    }
}

/// Across one whole NPC pass, every NPC's life never rises, and each
/// NPC is evaluated against the bullet set exactly once, so its life
/// falls by at most the sum of the damages of the bullets that entered
/// the tick eligible — each bullet counted once per NPC.
pub proof fn lemma_npcs_fold_damage_bound(
    npcs: Seq<Npc>,
    k: int,
    bullets: Seq<Bullet>,
    p1_alive: bool,
    can_drop_missile: bool,
    flags: ControlFlags,
)
    requires
        0 <= k <= npcs.len(),
    ensures
        ({
            let r = npcs_fold(npcs, k, bullets, p1_alive, can_drop_missile, flags);
            &&& r.0.len() == npcs.len()
            &&& r.1.len() == bullets.len()
            &&& forall|i: int|
                0 <= i < bullets.len() ==> {
                    &&& (#[trigger] r.1[i]).damage == bullets[i].damage
                    &&& r.1[i].cond.alive == bullets[i].cond.alive
                    &&& r.1[i].life <= bullets[i].life
                }
            &&& forall|j: int| k <= j < npcs.len() ==> (#[trigger] r.0[j]) == npcs[j]
            &&& forall|j: int|
                0 <= j < k ==> {
                    &&& (#[trigger] r.0[j]).life <= npcs[j].life
                    &&& r.0[j].life >= npcs[j].life - bullet_damage_sum(
                        bullets,
                        bullets.len() as int,
                    )
                }
        }),
    decreases k,
{
    if k > 0 {
        lemma_npcs_fold_damage_bound(npcs, k - 1, bullets, p1_alive, can_drop_missile, flags);
        lemma_damage_sum_nonneg(bullets, bullets.len() as int);
        let prev = npcs_fold(npcs, k - 1, bullets, p1_alive, can_drop_missile, flags);
        let npc = prev.0[k - 1];
        assert(npc == npcs[k - 1]);
        if npc.cond.alive && !(npc.npc_flags.shootable && npc.npc_flags.interactable) {
            lemma_npc_bullets_fold_damage_bound(npc, prev.1, prev.1.len() as int, p1_alive, prev.2);
            lemma_damage_sum_monotone(prev.1, bullets, bullets.len() as int);
            let inner = npc_bullets_fold(npc, prev.1, prev.1.len() as int, p1_alive, prev.2);
            assert(inner.0.life >= npcs[k - 1].life - bullet_damage_sum(
                bullets,
                bullets.len() as int,
            ));
        }
    }
}

} // verus!
